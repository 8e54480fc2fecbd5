//! The table of engine objects and of the handles that refer to them.
//!
//! Every object carries a count of the references held on it: one per handle
//! and one per object that uses it (a brush uses its stop collection). An
//! object whose count has dropped to zero is released; its slot is never
//! handed out again.
use vstd::prelude::*;
use crate::enums::{dash_style_code, DashStyle, ExtendMode, Gamma};
use crate::error::{Error, E_INVALIDARG};
use crate::math::{Matrix3x2f, Point2f, Rectf, RoundedRect, Scalar};
use crate::properties::{
    BrushProperties, GradientStop, LinearGradientBrushProperties, StrokeStyleProperties1,
};

verus! {

/// The state of one engine object.
pub enum NativeObject {
    StopCollection { stops: Vec<GradientStop>, gamma: Gamma, extend_mode: ExtendMode },
    LinearGradientBrush {
        properties: BrushProperties,
        linear: LinearGradientBrushProperties,
        collection: usize,
    },
    StrokeStyle { stroke: StrokeStyleProperties1, dashes: Vec<Scalar> },
    RoundedRectangle { rect: RoundedRect },
}

pub open spec fn is_collection_of(
    o: NativeObject,
    stops: Seq<GradientStop>,
    gamma: Gamma,
    extend_mode: ExtendMode,
) -> bool {
    match o {
        NativeObject::StopCollection { stops: s, gamma: g, extend_mode: e } => s@ == stops && g
            == gamma && e == extend_mode,
        _ => false,
    }
}

pub open spec fn is_brush_of(
    o: NativeObject,
    properties: BrushProperties,
    linear: LinearGradientBrushProperties,
    stops: nat,
) -> bool {
    match o {
        NativeObject::LinearGradientBrush { properties: p, linear: l, collection: s } => p
            == properties && l == linear && s == stops,
        _ => false,
    }
}

pub open spec fn is_stroke_style_of(
    o: NativeObject,
    properties: StrokeStyleProperties1,
    dashes: Seq<Scalar>,
) -> bool {
    match o {
        NativeObject::StrokeStyle { stroke: p, dashes: d } => p == properties && d@ == dashes,
        _ => false,
    }
}

/// A brush in `objects` refers to a stop collection among them.
pub open spec fn resolves_in(o: NativeObject, objects: Seq<NativeObject>) -> bool {
    match o {
        NativeObject::LinearGradientBrush { collection, .. } => collection < objects.len()
            && objects[collection as int] is StopCollection,
        _ => true,
    }
}

/// Reference counts after one reference on `id` is given up: an object
/// released by it gives up the reference it held on its stop collection.
pub open spec fn refs_after_release(refs: Seq<u64>, objects: Seq<NativeObject>, id: nat) -> Seq<
    u64,
> {
    let dropped = refs.update(id as int, (refs[id as int] - 1) as u64);
    if refs[id as int] == 1 {
        match objects[id as int] {
            NativeObject::LinearGradientBrush { collection: stops, .. } => if dropped[stops as int] > 0 {
                dropped.update(stops as int, (dropped[stops as int] - 1) as u64)
            } else {
                dropped
            },
            _ => dropped,
        }
    } else {
        dropped
    }
}

pub struct Factory {
    refs: Vec<u64>,
    objects: Vec<NativeObject>,
}

impl Factory {
    /// Reference count of each object, by id.
    pub closed spec fn refs(&self) -> Seq<u64> {
        self.refs@
    }

    /// State of each object, by id.
    pub closed spec fn objects(&self) -> Seq<NativeObject> {
        self.objects@
    }

    /// Each object has a count, and every brush refers to a stop collection
    /// of the table.
    pub open spec fn wf(&self) -> bool {
        &&& self.refs().len() == self.objects().len()
        &&& self.brushes_resolve()
    }

    pub closed spec fn brushes_resolve(&self) -> bool {
        forall|i: int|
            0 <= i < self.objects@.len() ==> resolves_in(#[trigger] self.objects@[i], self.objects@)
    }

    pub open spec fn len(&self) -> nat {
        self.objects().len()
    }

    /// The object `id` exists and is not released.
    pub open spec fn live(&self, id: nat) -> bool {
        id < self.len() && id < self.refs().len() && self.refs()[id as int] > 0
    }

    pub open spec fn is_collection(&self, id: nat) -> bool {
        id < self.len() && self.objects()[id as int] is StopCollection
    }

    pub open spec fn is_brush(&self, id: nat) -> bool {
        id < self.len() && self.objects()[id as int] is LinearGradientBrush
    }

    pub open spec fn is_stroke_style(&self, id: nat) -> bool {
        id < self.len() && self.objects()[id as int] is StrokeStyle
    }

    pub open spec fn is_rounded_rectangle(&self, id: nat) -> bool {
        id < self.len() && self.objects()[id as int] is RoundedRectangle
    }

    /// `self` is `old` with `o` added under one reference.
    pub open spec fn added(&self, old: &Factory, o: NativeObject) -> bool {
        &&& self.objects() == old.objects().push(o)
        &&& self.refs() == old.refs().push(1)
    }

    /// A brush refers to a stop collection, never to itself.
    pub proof fn lemma_brush_collection(&self, id: nat)
        requires
            self.wf(),
            self.is_brush(id),
        ensures
            self.is_collection(self.objects()[id as int]->LinearGradientBrush_collection as nat),
            self.objects()[id as int]->LinearGradientBrush_collection != id,
    {
        let o = self.objects@[id as int];
        assert(resolves_in(o, self.objects@));
    }

    pub fn new() -> (r: Factory)
        ensures
            r.wf(),
            r.len() == 0,
    {
        Factory { refs: Vec::new(), objects: Vec::new() }
    }

    /// Number of objects created so far, released ones included.
    pub fn object_count(&self) -> (r: usize)
        requires
            self.wf(),
        ensures
            r == self.len(),
    {
        self.objects.len()
    }

    /// The count of references held on `id`.
    pub fn ref_count(&self, id: usize) -> (r: u64)
        requires
            self.wf(),
            id < self.len(),
        ensures
            r == self.refs()[id as int],
    {
        self.refs[id]
    }

    fn push_object(&mut self, o: NativeObject) -> (id: usize)
        requires
            old(self).wf(),
            resolves_in(o, old(self).objects()),
        ensures
            final(self).wf(),
            final(self).added(old(self), o),
            id == old(self).len(),
    {
        let id = self.objects.len();
        self.objects.push(o);
        self.refs.push(1);
        assert forall|i: int| 0 <= i < self.objects@.len() implies resolves_in(#[trigger] self.objects@[i], self.objects@) by {
            if i < id {
                assert(old(self).objects@[i] == self.objects@[i]);
            }
        }
        id
    }

    /// Takes one more reference on `id`.
    pub(crate) fn add_ref(&mut self, id: usize)
        requires
            old(self).wf(),
            id < old(self).len(),
            old(self).refs()[id as int] < u64::MAX,
        ensures
            final(self).wf(),
            final(self).objects() == old(self).objects(),
            final(self).refs() == old(self).refs().update(
                id as int,
                (old(self).refs()[id as int] + 1) as u64,
            ),
    {
        let n = self.refs[id];
        self.refs.set(id, n + 1);
    }

    /// Gives up one reference on `id`. When it was the last one the object
    /// is released, and with it the reference it held on another object.
    pub(crate) fn release(&mut self, id: usize)
        requires
            old(self).wf(),
            old(self).live(id as nat),
        ensures
            final(self).wf(),
            final(self).objects() == old(self).objects(),
            final(self).refs() == refs_after_release(
                old(self).refs(),
                old(self).objects(),
                id as nat,
            ),
    {
        let n = self.refs[id];
        self.refs.set(id, n - 1);
        if n == 1 {
            match &self.objects[id] {
                NativeObject::LinearGradientBrush { collection: stops, .. } => {
                    let s = *stops;
                    let m = self.refs[s];
                    if m > 0 {
                        self.refs.set(s, m - 1);
                    }
                },
                _ => {},
            }
        }
    }

    /// Creates a gradient stop collection. The engine refuses an empty one.
    pub(crate) fn create_gradient_stop_collection(
        &mut self,
        stops: Vec<GradientStop>,
        gamma: Gamma,
        extend_mode: ExtendMode,
    ) -> (r: Result<usize, Error>)
        requires
            old(self).wf(),
        ensures
            final(self).wf(),
            if stops@.len() == 0 {
                &&& r == Err::<usize, Error>(Error { hr: E_INVALIDARG })
                &&& final(self).refs() == old(self).refs()
                &&& final(self).objects() == old(self).objects()
            } else {
                &&& r is Ok
                &&& r->Ok_0 == old(self).len()
                &&& final(self).refs() == old(self).refs().push(1)
                &&& final(self).objects().len() == old(self).len() + 1
                &&& final(self).objects().drop_last() == old(self).objects()
                &&& is_collection_of(final(self).objects().last(), stops@, gamma, extend_mode)
            },
    {
        if stops.len() == 0 {
            return Err(Error { hr: E_INVALIDARG });
        }
        let id = self.push_object(NativeObject::StopCollection { stops, gamma, extend_mode });
        proof {
            assert(self.objects().drop_last() =~= old(self).objects());
        }
        Ok(id)
    }

    /// Creates a linear gradient brush that takes a reference on `stops`.
    pub(crate) fn create_linear_gradient_brush(
        &mut self,
        linear: LinearGradientBrushProperties,
        properties: BrushProperties,
        stops: usize,
    ) -> (r: usize)
        requires
            old(self).wf(),
            old(self).is_collection(stops as nat),
            old(self).refs()[stops as int] < u64::MAX,
        ensures
            final(self).wf(),
            r == old(self).len(),
            final(self).objects() == old(self).objects().push(
                NativeObject::LinearGradientBrush { properties, linear, collection: stops },
            ),
            final(self).refs() == old(self).refs().update(
                stops as int,
                (old(self).refs()[stops as int] + 1) as u64,
            ).push(1),
    {
        self.add_ref(stops);
        let o = NativeObject::LinearGradientBrush { properties, linear, collection: stops };
        self.push_object(o)
    }

    /// Creates a stroke style. The engine takes a dash array exactly when
    /// the dash style is the custom one, and refuses it otherwise.
    pub(crate) fn create_stroke_style(
        &mut self,
        properties: StrokeStyleProperties1,
        dashes: Vec<Scalar>,
    ) -> (r: Result<usize, Error>)
        requires
            old(self).wf(),
        ensures
            final(self).wf(),
            if (properties.dash_style == dash_style_code(DashStyle::Custom)) != (dashes@.len()
                > 0) {
                &&& r == Err::<usize, Error>(Error { hr: E_INVALIDARG })
                &&& final(self).refs() == old(self).refs()
                &&& final(self).objects() == old(self).objects()
            } else {
                &&& r is Ok
                &&& r->Ok_0 == old(self).len()
                &&& final(self).refs() == old(self).refs().push(1)
                &&& final(self).objects().len() == old(self).len() + 1
                &&& final(self).objects().drop_last() == old(self).objects()
                &&& is_stroke_style_of(final(self).objects().last(), properties, dashes@)
            },
    {
        let custom = DashStyle::Custom.to_native();
        if (properties.dash_style == custom) != (dashes.len() > 0) {
            return Err(Error { hr: E_INVALIDARG });
        }
        let id = self.push_object(NativeObject::StrokeStyle { stroke: properties, dashes });
        proof {
            assert(self.objects().drop_last() =~= old(self).objects());
        }
        Ok(id)
    }

    pub(crate) fn create_rounded_rectangle(&mut self, rect: RoundedRect) -> (r: usize)
        requires
            old(self).wf(),
        ensures
            final(self).wf(),
            r == old(self).len(),
            final(self).added(old(self), NativeObject::RoundedRectangle { rect }),
    {
        self.push_object(NativeObject::RoundedRectangle { rect })
    }

    pub(crate) fn brush_properties(&self, id: usize) -> (r: BrushProperties)
        requires
            self.wf(),
            self.is_brush(id as nat),
        ensures
            r == self.objects()[id as int]->LinearGradientBrush_properties,
    {
        match &self.objects[id] {
            NativeObject::LinearGradientBrush { properties, .. } => *properties,
            _ => {
                proof {
                    assert(false);
                }
                BrushProperties::new(Scalar::zero(), &Matrix3x2f::identity())
            },
        }
    }

    pub(crate) fn linear_properties(&self, id: usize) -> (r: LinearGradientBrushProperties)
        requires
            self.wf(),
            self.is_brush(id as nat),
        ensures
            r == self.objects()[id as int]->LinearGradientBrush_linear,
    {
        match &self.objects[id] {
            NativeObject::LinearGradientBrush { linear, .. } => *linear,
            _ => {
                proof {
                    assert(false);
                }
                LinearGradientBrushProperties { start: Point2f::origin(), end: Point2f::origin() }
            },
        }
    }

    pub(crate) fn brush_stops(&self, id: usize) -> (r: usize)
        requires
            self.wf(),
            self.is_brush(id as nat),
        ensures
            r == self.objects()[id as int]->LinearGradientBrush_collection,
            self.is_collection(r as nat),
    {
        proof {
            assert(self.objects@[id as int] == self.objects()[id as int]);
        }
        match &self.objects[id] {
            NativeObject::LinearGradientBrush { collection: stops, .. } => *stops,
            _ => {
                proof {
                    assert(false);
                }
                0
            },
        }
    }

    /// Replaces the opacity and transform of the brush `id`.
    pub(crate) fn set_brush_properties(&mut self, id: usize, properties: BrushProperties)
        requires
            old(self).wf(),
            old(self).is_brush(id as nat),
        ensures
            final(self).wf(),
            final(self).refs() == old(self).refs(),
            final(self).objects() == old(self).objects().update(
                id as int,
                NativeObject::LinearGradientBrush {
                    properties,
                    linear: old(self).objects()[id as int]->LinearGradientBrush_linear,
                    collection: old(self).objects()[id as int]->LinearGradientBrush_collection,
                },
            ),
    {
        let linear = self.linear_properties(id);
        let stops = self.brush_stops(id);
        self.objects.set(
            id,
            NativeObject::LinearGradientBrush { properties, linear, collection: stops },
        );
        assert forall|i: int| 0 <= i < self.objects@.len() implies resolves_in(#[trigger] self.objects@[i], self.objects@) by {
            if i != id {
                assert(old(self).objects@[i] == self.objects@[i]);
            }
        }
    }

    pub(crate) fn collection_parts(&self, id: usize) -> (r: (Vec<GradientStop>, Gamma, ExtendMode))
        requires
            self.wf(),
            self.is_collection(id as nat),
        ensures
            is_collection_of(self.objects()[id as int], r.0@, r.1, r.2),
    {
        match &self.objects[id] {
            NativeObject::StopCollection { stops, gamma, extend_mode } => {
                (copy_of(stops), *gamma, *extend_mode)
            },
            _ => {
                proof {
                    assert(false);
                }
                (Vec::new(), Gamma::Gamma22, ExtendMode::Clamp)
            },
        }
    }

    pub(crate) fn stroke_style_parts(&self, id: usize) -> (r: (StrokeStyleProperties1, Vec<Scalar>))
        requires
            self.wf(),
            self.is_stroke_style(id as nat),
        ensures
            is_stroke_style_of(self.objects()[id as int], r.0, r.1@),
    {
        match &self.objects[id] {
            NativeObject::StrokeStyle { stroke: properties, dashes } => (*properties, copy_of(dashes)),
            _ => {
                proof {
                    assert(false);
                }
                let z = Scalar::zero();
                let p = StrokeStyleProperties1 {
                    start_cap: 0,
                    end_cap: 0,
                    dash_cap: 0,
                    line_join: 0,
                    miter_limit: z,
                    dash_style: 0,
                    dash_offset: z,
                    transform_type: 0,
                };
                (p, Vec::new())
            },
        }
    }

    pub(crate) fn rounded_rect(&self, id: usize) -> (r: RoundedRect)
        requires
            self.wf(),
            self.is_rounded_rectangle(id as nat),
        ensures
            self.objects()[id as int] == (NativeObject::RoundedRectangle { rect: r }),
    {
        match &self.objects[id] {
            NativeObject::RoundedRectangle { rect } => *rect,
            _ => {
                proof {
                    assert(false);
                }
                let z = Scalar::zero();
                RoundedRect {
                    rect: Rectf { left: z, top: z, right: z, bottom: z },
                    radius_x: z,
                    radius_y: z,
                }
            },
        }
    }
}

fn copy_of<T: Copy>(v: &Vec<T>) -> (r: Vec<T>)
    ensures
        r@ == v@,
{
    let mut r: Vec<T> = Vec::new();
    let mut i: usize = 0;
    while i < v.len()
        invariant
            i <= v@.len(),
            r@ == v@.subrange(0, i as int),
        decreases v@.len() - i,
    {
        r.push(v[i]);
        i = i + 1;
        proof {
            assert(r@ =~= v@.subrange(0, i as int));
        }
    }
    proof {
        assert(r@ =~= v@);
    }
    r
}

} // verus!
