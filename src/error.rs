//! Failures reported by the engine.
use vstd::prelude::*;

verus! {

/// Status code of an invalid argument.
pub const E_INVALIDARG: i32 = -2147024809;

/// A failed engine call, with the status code it returned.
#[derive(PartialEq, Eq, Structural, Clone, Copy, Debug)]
pub struct Error {
    pub hr: i32,
}

impl Error {
    pub fn from_hresult(hr: i32) -> (r: Error)
        ensures
            r.hr == hr,
    {
        Error { hr }
    }

    pub fn hresult(&self) -> (r: i32)
        ensures
            r == self.hr,
    {
        self.hr
    }
}

pub type D2DResult<T> = Result<T, Error>;

} // verus!
