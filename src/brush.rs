//! Brush handles and gradient stop collections.
use vstd::prelude::*;
use crate::enums::{ExtendMode, Gamma};
use crate::factory::{is_collection_of, refs_after_release, Factory, NativeObject};
use crate::math::{Matrix3x2f, Point2f, Scalar};
use crate::properties::{BrushProperties, GradientStop, LinearGradientBrushProperties};

verus! {

/// The opacity and transform of brush `id`.
pub open spec fn brush_properties_of(f: &Factory, id: nat) -> BrushProperties {
    f.objects()[id as int]->LinearGradientBrush_properties
}

/// The gradient points of brush `id`.
pub open spec fn linear_properties_of(f: &Factory, id: nat) -> LinearGradientBrushProperties {
    f.objects()[id as int]->LinearGradientBrush_linear
}

/// `f` is `old` with the opacity and transform of brush `id` replaced.
pub open spec fn brush_updated(f: &Factory, old: &Factory, id: nat, p: BrushProperties) -> bool {
    &&& f.wf()
    &&& f.refs() == old.refs()
    &&& f.objects() == old.objects().update(
        id as int,
        NativeObject::LinearGradientBrush {
            properties: p,
            linear: linear_properties_of(old, id),
            collection: old.objects()[id as int]->LinearGradientBrush_collection,
        },
    )
}

/// `f` is `old` with one more reference on `id`.
pub open spec fn ref_added(f: &Factory, old: &Factory, id: nat) -> bool {
    &&& f.wf()
    &&& f.objects() == old.objects()
    &&& f.refs() == old.refs().update(id as int, (old.refs()[id as int] + 1) as u64)
}

/// `f` is `old` with one reference on `id` given up.
pub open spec fn ref_dropped(f: &Factory, old: &Factory, id: nat) -> bool {
    &&& f.wf()
    &&& f.objects() == old.objects()
    &&& f.refs() == refs_after_release(old.refs(), old.objects(), id)
}

/// What a brush was built with is what its accessors report.
pub proof fn lemma_built_brush_reports(
    f: &Factory,
    id: nat,
    properties: BrushProperties,
    linear: LinearGradientBrushProperties,
    collection: nat,
)
    requires
        id < f.len(),
        crate::factory::is_brush_of(f.objects()[id as int], properties, linear, collection),
    ensures
        f.is_brush(id),
        brush_properties_of(f, id) == properties,
        linear_properties_of(f, id) == linear,
{
}

/// After a brush's opacity and transform are set, its accessors report the
/// new values and its gradient points are unchanged.
pub proof fn lemma_brush_set_then_get(f: &Factory, old: &Factory, id: nat, p: BrushProperties)
    requires
        old.wf(),
        old.is_brush(id),
        brush_updated(f, old, id, p),
    ensures
        f.is_brush(id),
        brush_properties_of(f, id) == p,
        linear_properties_of(f, id) == linear_properties_of(old, id),
{
}

/// A second handle, generic or not, refers to the same object, whose state
/// is untouched and which now counts one more reference.
pub proof fn lemma_new_handle_shares_object(f: &Factory, old: &Factory, id: nat)
    requires
        old.wf(),
        old.live(id),
        old.refs()[id as int] < u64::MAX,
        ref_added(f, old, id),
    ensures
        f.live(id),
        f.objects()[id as int] == old.objects()[id as int],
        f.refs()[id as int] == old.refs()[id as int] + 1,
        brush_properties_of(f, id) == brush_properties_of(old, id),
{
}

/// Giving up the last reference on an object releases it; a brush released
/// so gives up its reference on its stop collection.
pub proof fn lemma_last_release_frees(f: &Factory, old: &Factory, id: nat)
    requires
        old.wf(),
        old.live(id),
        old.refs()[id as int] == 1,
        ref_dropped(f, old, id),
    ensures
        !f.live(id),
        old.is_brush(id) ==> {
            let c = old.objects()[id as int]->LinearGradientBrush_collection;
            c != id && (old.refs()[c as int] > 0 ==> f.refs()[c as int] == old.refs()[c as int]
                - 1)
        },
{
    if old.is_brush(id) {
        old.lemma_brush_collection(id);
    }
}

/// A reference given up while others remain keeps the object alive.
pub proof fn lemma_release_keeps_shared(f: &Factory, old: &Factory, id: nat)
    requires
        old.wf(),
        old.live(id),
        old.refs()[id as int] > 1,
        ref_dropped(f, old, id),
    ensures
        f.live(id),
        f.refs()[id as int] == old.refs()[id as int] - 1,
        f.refs() == old.refs().update(id as int, (old.refs()[id as int] - 1) as u64),
{
}

/// A shared reference to a collection of gradient stops.
pub struct GradientStopCollection {
    id: usize,
}

impl GradientStopCollection {
    pub closed spec fn id(&self) -> nat {
        self.id as nat
    }

    pub(crate) fn from_id(id: usize) -> (r: GradientStopCollection)
        ensures
            r.id() == id,
    {
        GradientStopCollection { id }
    }

    pub fn object_id(&self) -> (r: usize)
        ensures
            r == self.id(),
    {
        self.id
    }

    /// Creates a collection from `stops`; the engine refuses an empty list.
    pub fn create(
        factory: &mut Factory,
        stops: Vec<GradientStop>,
        gamma: Gamma,
        extend_mode: ExtendMode,
    ) -> (r: Result<GradientStopCollection, crate::error::Error>)
        requires
            old(factory).wf(),
        ensures
            final(factory).wf(),
            if stops@.len() == 0 {
                &&& r is Err
                &&& r->Err_0.hr == crate::error::E_INVALIDARG
                &&& final(factory).refs() == old(factory).refs()
                &&& final(factory).objects() == old(factory).objects()
            } else {
                &&& r is Ok
                &&& r->Ok_0.id() == old(factory).len()
                &&& final(factory).refs() == old(factory).refs().push(1)
                &&& final(factory).objects().len() == old(factory).len() + 1
                &&& final(factory).objects().drop_last() == old(factory).objects()
                &&& is_collection_of(final(factory).objects().last(), stops@, gamma, extend_mode)
            },
    {
        match factory.create_gradient_stop_collection(stops, gamma, extend_mode) {
            Ok(id) => Ok(GradientStopCollection::from_id(id)),
            Err(e) => Err(e),
        }
    }

    /// A second handle on the same collection.
    pub fn clone_in(&self, factory: &mut Factory) -> (r: GradientStopCollection)
        requires
            old(factory).wf(),
            old(factory).live(self.id()),
            old(factory).refs()[self.id() as int] < u64::MAX,
        ensures
            r.id() == self.id(),
            ref_added(final(factory), old(factory), self.id()),
    {
        factory.add_ref(self.id);
        GradientStopCollection { id: self.id }
    }

    pub fn release(self, factory: &mut Factory)
        requires
            old(factory).wf(),
            old(factory).live(self.id()),
        ensures
            ref_dropped(final(factory), old(factory), self.id()),
    {
        factory.release(self.id);
    }

    /// The stops, gamma and extend mode the collection was made with.
    pub fn contents(&self, factory: &Factory) -> (r: (Vec<GradientStop>, Gamma, ExtendMode))
        requires
            factory.wf(),
            factory.is_collection(self.id()),
        ensures
            is_collection_of(factory.objects()[self.id() as int], r.0@, r.1, r.2),
    {
        factory.collection_parts(self.id)
    }
}

/// The capabilities every brush shares.
pub trait Brush {
    /// The engine object the handle refers to.
    spec fn object(&self) -> nat;

    fn object_id(&self) -> (r: usize)
        ensures
            r == self.object(),
    ;

    /// A generic handle on the same brush.
    fn to_generic(&self, factory: &mut Factory) -> (r: GenericBrush)
        requires
            old(factory).wf(),
            old(factory).live(self.object()),
            old(factory).refs()[self.object() as int] < u64::MAX,
        ensures
            r.id() == self.object(),
            ref_added(final(factory), old(factory), self.object()),
    ;

    fn get_opacity(&self, factory: &Factory) -> (r: Scalar)
        requires
            factory.wf(),
            factory.is_brush(self.object()),
        ensures
            r == brush_properties_of(factory, self.object()).opacity,
    ;

    fn get_transform(&self, factory: &Factory) -> (r: Matrix3x2f)
        requires
            factory.wf(),
            factory.is_brush(self.object()),
        ensures
            r == brush_properties_of(factory, self.object()).transform,
    ;

    fn set_opacity(&mut self, factory: &mut Factory, opacity: Scalar)
        requires
            old(factory).wf(),
            old(factory).is_brush(old(self).object()),
        ensures
            final(self).object() == old(self).object(),
            brush_updated(
                final(factory),
                old(factory),
                old(self).object(),
                BrushProperties {
                    opacity,
                    transform: brush_properties_of(old(factory), old(self).object()).transform,
                },
            ),
    ;

    fn set_transform(&mut self, factory: &mut Factory, transform: &Matrix3x2f)
        requires
            old(factory).wf(),
            old(factory).is_brush(old(self).object()),
        ensures
            final(self).object() == old(self).object(),
            brush_updated(
                final(factory),
                old(factory),
                old(self).object(),
                BrushProperties {
                    opacity: brush_properties_of(old(factory), old(self).object()).opacity,
                    transform: *transform,
                },
            ),
    ;
}

/// A brush painting a linear gradient.
pub struct LinearGradientBrush {
    id: usize,
}

/// A brush of any kind, through the capabilities every brush shares.
pub struct GenericBrush {
    id: usize,
}

impl LinearGradientBrush {
    pub closed spec fn id(&self) -> nat {
        self.id as nat
    }

    pub(crate) fn from_id(id: usize) -> (r: LinearGradientBrush)
        ensures
            r.id() == id,
    {
        LinearGradientBrush { id }
    }



    /// A second handle on the same brush.
    pub fn clone_in(&self, factory: &mut Factory) -> (r: LinearGradientBrush)
        requires
            old(factory).wf(),
            old(factory).live(self.id()),
            old(factory).refs()[self.id() as int] < u64::MAX,
        ensures
            r.id() == self.id(),
            ref_added(final(factory), old(factory), self.id()),
    {
        factory.add_ref(self.id);
        LinearGradientBrush { id: self.id }
    }

    pub fn release(self, factory: &mut Factory)
        requires
            old(factory).wf(),
            old(factory).live(self.id()),
        ensures
            ref_dropped(final(factory), old(factory), self.id()),
    {
        factory.release(self.id);
    }





    pub fn get_start_point(&self, factory: &Factory) -> (r: Point2f)
        requires
            factory.wf(),
            factory.is_brush(self.id()),
        ensures
            r == linear_properties_of(factory, self.id()).start,
    {
        factory.linear_properties(self.id).start
    }

    pub fn get_end_point(&self, factory: &Factory) -> (r: Point2f)
        requires
            factory.wf(),
            factory.is_brush(self.id()),
        ensures
            r == linear_properties_of(factory, self.id()).end,
    {
        factory.linear_properties(self.id).end
    }

    /// A new handle on the stop collection the brush paints with.
    pub fn get_gradient_stop_collection(&self, factory: &mut Factory) -> (r: GradientStopCollection)
        requires
            old(factory).wf(),
            old(factory).is_brush(self.id()),
            old(factory).refs()[old(factory).objects()[self.id() as int]->LinearGradientBrush_collection as int]
                < u64::MAX,
        ensures
            r.id() == old(factory).objects()[self.id() as int]->LinearGradientBrush_collection,
            final(factory).is_collection(r.id()),
            ref_added(final(factory), old(factory), r.id()),
    {
        let s = factory.brush_stops(self.id);
        factory.add_ref(s);
        GradientStopCollection::from_id(s)
    }
}

impl GenericBrush {
    pub closed spec fn id(&self) -> nat {
        self.id as nat
    }


    pub fn clone_in(&self, factory: &mut Factory) -> (r: GenericBrush)
        requires
            old(factory).wf(),
            old(factory).live(self.id()),
            old(factory).refs()[self.id() as int] < u64::MAX,
        ensures
            r.id() == self.id(),
            ref_added(final(factory), old(factory), self.id()),
    {
        factory.add_ref(self.id);
        GenericBrush { id: self.id }
    }

    pub fn release(self, factory: &mut Factory)
        requires
            old(factory).wf(),
            old(factory).live(self.id()),
        ensures
            ref_dropped(final(factory), old(factory), self.id()),
    {
        factory.release(self.id);
    }




}

impl Brush for LinearGradientBrush {
    open spec fn object(&self) -> nat {
        self.id()
    }

    fn object_id(&self) -> (r: usize) {
        self.id
    }

    fn to_generic(&self, factory: &mut Factory) -> (r: GenericBrush) {
        factory.add_ref(self.id);
        GenericBrush { id: self.id }
    }

    fn get_opacity(&self, factory: &Factory) -> (r: Scalar) {
        factory.brush_properties(self.id).opacity
    }

    fn get_transform(&self, factory: &Factory) -> (r: Matrix3x2f) {
        factory.brush_properties(self.id).transform
    }

    fn set_opacity(&mut self, factory: &mut Factory, opacity: Scalar) {
        let p = factory.brush_properties(self.id);
        factory.set_brush_properties(self.id, BrushProperties { opacity, transform: p.transform });
    }

    fn set_transform(&mut self, factory: &mut Factory, transform: &Matrix3x2f) {
        let p = factory.brush_properties(self.id);
        factory.set_brush_properties(
            self.id,
            BrushProperties { opacity: p.opacity, transform: *transform },
        );
    }
}

impl Brush for GenericBrush {
    open spec fn object(&self) -> nat {
        self.id()
    }

    fn object_id(&self) -> (r: usize) {
        self.id
    }

    fn to_generic(&self, factory: &mut Factory) -> (r: GenericBrush) {
        factory.add_ref(self.id);
        GenericBrush { id: self.id }
    }

    fn get_opacity(&self, factory: &Factory) -> (r: Scalar) {
        factory.brush_properties(self.id).opacity
    }

    fn get_transform(&self, factory: &Factory) -> (r: Matrix3x2f) {
        factory.brush_properties(self.id).transform
    }

    fn set_opacity(&mut self, factory: &mut Factory, opacity: Scalar) {
        let p = factory.brush_properties(self.id);
        factory.set_brush_properties(self.id, BrushProperties { opacity, transform: p.transform });
    }

    fn set_transform(&mut self, factory: &mut Factory, transform: &Matrix3x2f) {
        let p = factory.brush_properties(self.id);
        factory.set_brush_properties(
            self.id,
            BrushProperties { opacity: p.opacity, transform: *transform },
        );
    }
}

} // verus!
