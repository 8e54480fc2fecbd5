//! Geometry handles.
use vstd::prelude::*;
use crate::brush::{ref_added, ref_dropped};
use crate::error::D2DResult;
use crate::factory::{Factory, NativeObject};
use crate::math::RoundedRect;

verus! {

/// A rounded rectangle, usable wherever a geometry is.
pub struct RoundedRectangle {
    id: usize,
}

impl RoundedRectangle {
    pub closed spec fn id(&self) -> nat {
        self.id as nat
    }

    pub fn object_id(&self) -> (r: usize)
        ensures
            r == self.id(),
    {
        self.id
    }

    pub fn create(factory: &mut Factory, rectangle: &RoundedRect) -> (r: D2DResult<
        RoundedRectangle,
    >)
        requires
            old(factory).wf(),
        ensures
            final(factory).wf(),
            r is Ok,
            r->Ok_0.id() == old(factory).len(),
            final(factory).added(old(factory), NativeObject::RoundedRectangle { rect: *rectangle }),
    {
        let id = factory.create_rounded_rectangle(*rectangle);
        Ok(RoundedRectangle { id })
    }

    pub fn get_rounded_rect(&self, factory: &Factory) -> (r: RoundedRect)
        requires
            factory.wf(),
            factory.is_rounded_rectangle(self.id()),
        ensures
            factory.objects()[self.id() as int] == (NativeObject::RoundedRectangle { rect: r }),
    {
        factory.rounded_rect(self.id)
    }

    pub fn clone_in(&self, factory: &mut Factory) -> (r: RoundedRectangle)
        requires
            old(factory).wf(),
            old(factory).live(self.id()),
            old(factory).refs()[self.id() as int] < u64::MAX,
        ensures
            r.id() == self.id(),
            ref_added(final(factory), old(factory), self.id()),
    {
        factory.add_ref(self.id);
        RoundedRectangle { id: self.id }
    }

    pub fn release(self, factory: &mut Factory)
        requires
            old(factory).wf(),
            old(factory).live(self.id()),
        ensures
            ref_dropped(final(factory), old(factory), self.id()),
    {
        factory.release(self.id);
    }
}

} // verus!
