//! Plain geometric values handed to the engine.
//!
//! Coordinates are single-precision values on the engine side; they are held
//! here by their IEEE-754 bit patterns, since this layer only stores them and
//! passes them on.
use vstd::prelude::*;

verus! {

/// A single-precision engine value, held by its bit pattern.
#[derive(PartialEq, Eq, Structural, Clone, Copy, Debug)]
pub struct Scalar {
    pub bits: u32,
}

/// Bit pattern of zero.
pub const ZERO_BITS: u32 = 0;

/// Bit pattern of one.
pub const ONE_BITS: u32 = 0x3f80_0000;

/// Bit pattern of ten.
pub const TEN_BITS: u32 = 0x4120_0000;

impl Scalar {
    pub fn from_bits(bits: u32) -> (r: Scalar)
        ensures
            r.bits == bits,
    {
        Scalar { bits }
    }

    pub fn to_bits(self) -> (r: u32)
        ensures
            r == self.bits,
    {
        self.bits
    }

    pub fn zero() -> (r: Scalar)
        ensures
            r.bits == ZERO_BITS,
    {
        Scalar { bits: ZERO_BITS }
    }

    pub fn one() -> (r: Scalar)
        ensures
            r.bits == ONE_BITS,
    {
        Scalar { bits: ONE_BITS }
    }

    pub fn ten() -> (r: Scalar)
        ensures
            r.bits == TEN_BITS,
    {
        Scalar { bits: TEN_BITS }
    }
}

#[derive(PartialEq, Eq, Structural, Clone, Copy, Debug)]
pub struct Point2f {
    pub x: Scalar,
    pub y: Scalar,
}

impl Point2f {
    pub fn new(x: Scalar, y: Scalar) -> (r: Point2f)
        ensures
            r.x == x,
            r.y == y,
    {
        Point2f { x, y }
    }

    pub open spec fn is_origin(self) -> bool {
        self.x.bits == ZERO_BITS && self.y.bits == ZERO_BITS
    }

    pub fn origin() -> (r: Point2f)
        ensures
            r.is_origin(),
    {
        Point2f { x: Scalar::zero(), y: Scalar::zero() }
    }
}

/// A 3x2 affine transform, row-major as the engine lays it out.
#[derive(PartialEq, Eq, Structural, Clone, Copy, Debug)]
pub struct Matrix3x2f {
    pub a: Scalar,
    pub b: Scalar,
    pub c: Scalar,
    pub d: Scalar,
    pub x: Scalar,
    pub y: Scalar,
}

impl Matrix3x2f {
    pub open spec fn is_identity(self) -> bool {
        &&& self.a.bits == ONE_BITS
        &&& self.b.bits == ZERO_BITS
        &&& self.c.bits == ZERO_BITS
        &&& self.d.bits == ONE_BITS
        &&& self.x.bits == ZERO_BITS
        &&& self.y.bits == ZERO_BITS
    }

    pub fn identity() -> (r: Matrix3x2f)
        ensures
            r.is_identity(),
    {
        Matrix3x2f {
            a: Scalar::one(),
            b: Scalar::zero(),
            c: Scalar::zero(),
            d: Scalar::one(),
            x: Scalar::zero(),
            y: Scalar::zero(),
        }
    }
}

/// A color with straight alpha.
#[derive(PartialEq, Eq, Structural, Clone, Copy, Debug)]
pub struct ColorF {
    pub r: Scalar,
    pub g: Scalar,
    pub b: Scalar,
    pub a: Scalar,
}

#[derive(PartialEq, Eq, Structural, Clone, Copy, Debug)]
pub struct Rectf {
    pub left: Scalar,
    pub top: Scalar,
    pub right: Scalar,
    pub bottom: Scalar,
}

#[derive(PartialEq, Eq, Structural, Clone, Copy, Debug)]
pub struct RoundedRect {
    pub rect: Rectf,
    pub radius_x: Scalar,
    pub radius_y: Scalar,
}

} // verus!
