//! Builders for gradient stop collections and linear gradient brushes.
use vstd::prelude::*;
use crate::brush::{
    brush_properties_of, linear_properties_of, GradientStopCollection, LinearGradientBrush,
};
use crate::enums::{ExtendMode, Gamma};
use crate::error::{D2DResult, E_INVALIDARG};
use crate::factory::{is_brush_of, is_collection_of, Factory};
use crate::math::{Matrix3x2f, Point2f, Scalar};
use crate::properties::{BrushProperties, GradientStop, LinearGradientBrushProperties};

verus! {

/// A stop collection reports the stops, gamma and extend mode it was built
/// with, and nothing else.
pub proof fn lemma_collection_round_trip(
    o: crate::factory::NativeObject,
    b: GradientStopBuilder,
    stops: Seq<GradientStop>,
    gamma: Gamma,
    extend_mode: ExtendMode,
)
    requires
        is_collection_of(o, b.stops@, b.gamma, b.extend_mode),
        is_collection_of(o, stops, gamma, extend_mode),
    ensures
        stops == b.stops@,
        gamma == b.gamma,
        extend_mode == b.extend_mode,
{
}

/// A brush built from a builder left at its defaults, stops aside, reports
/// an opacity of one, the identity transform and both points at the origin.
pub proof fn lemma_default_brush(
    b: LinearGradientBrushBuilder,
    f: &Factory,
    id: nat,
    collection: nat,
)
    requires
        b.properties.opacity.bits == crate::math::ONE_BITS,
        b.properties.transform.is_identity(),
        b.linear_properties.start.is_origin(),
        b.linear_properties.end.is_origin(),
        id < f.len(),
        is_brush_of(f.objects()[id as int], b.properties, b.linear_properties, collection),
    ensures
        f.is_brush(id),
        brush_properties_of(f, id).opacity.bits == crate::math::ONE_BITS,
        brush_properties_of(f, id).transform.is_identity(),
        linear_properties_of(f, id).start.is_origin(),
        linear_properties_of(f, id).end.is_origin(),
{
}

/// Accumulates the stops of a collection not created yet.
pub struct GradientStopBuilder {
    pub stops: Vec<GradientStop>,
    pub gamma: Gamma,
    pub extend_mode: ExtendMode,
}

impl GradientStopBuilder {
    /// An empty list, with gamma 2.2 and clamping, the engine's defaults.
    pub fn new() -> (r: GradientStopBuilder)
        ensures
            r.stops@.len() == 0,
            r.gamma == Gamma::Gamma22,
            r.extend_mode == ExtendMode::Clamp,
    {
        GradientStopBuilder { stops: Vec::new(), gamma: Gamma::Gamma22, extend_mode: ExtendMode::Clamp }
    }

    pub fn build(self, factory: &mut Factory) -> (r: D2DResult<GradientStopCollection>)
        requires
            old(factory).wf(),
        ensures
            final(factory).wf(),
            if self.stops@.len() == 0 {
                &&& r is Err
                &&& r->Err_0.hr == E_INVALIDARG
                &&& final(factory).refs() == old(factory).refs()
                &&& final(factory).objects() == old(factory).objects()
            } else {
                &&& r is Ok
                &&& r->Ok_0.id() == old(factory).len()
                &&& final(factory).refs() == old(factory).refs().push(1)
                &&& final(factory).objects().len() == old(factory).len() + 1
                &&& final(factory).objects().drop_last() == old(factory).objects()
                &&& is_collection_of(
                    final(factory).objects().last(),
                    self.stops@,
                    self.gamma,
                    self.extend_mode,
                )
            },
    {
        GradientStopCollection::create(factory, self.stops, self.gamma, self.extend_mode)
    }
}

/// Where the stops of the brush come from.
pub enum Stops<'a> {
    /// A list that `build` turns into a new collection.
    Pending(GradientStopBuilder),
    /// A collection that exists already.
    Collection(&'a GradientStopCollection),
}

/// Configures a linear gradient brush. The opacity starts at one, the
/// transform at the identity, both points at the origin, and the stop list
/// empty: at least one stop, or an existing collection, must be given.
pub struct LinearGradientBrushBuilder<'a> {
    pub properties: BrushProperties,
    pub linear_properties: LinearGradientBrushProperties,
    pub stops: Stops<'a>,
}

impl<'a> LinearGradientBrushBuilder<'a> {
    /// The stop list is still being accumulated.
    pub open spec fn is_pending(&self) -> bool {
        self.stops is Pending
    }

    pub open spec fn pending(&self) -> GradientStopBuilder {
        self.stops->Pending_0
    }

    /// The brush fields other than the stop source are those of `o`.
    pub open spec fn same_brush_fields(&self, o: &Self) -> bool {
        self.properties == o.properties && self.linear_properties == o.linear_properties
    }

    /// The stop list stays pending, its other settings untouched.
    pub open spec fn same_pending(&self, o: &Self) -> bool {
        &&& self.is_pending()
        &&& self.pending().gamma == o.pending().gamma
        &&& self.pending().extend_mode == o.pending().extend_mode
        &&& self.pending().stops@ == o.pending().stops@
    }

    pub fn new() -> (r: LinearGradientBrushBuilder<'a>)
        ensures
            r.properties.opacity.bits == crate::math::ONE_BITS,
            r.properties.transform.is_identity(),
            r.linear_properties.start.is_origin(),
            r.linear_properties.end.is_origin(),
            r.is_pending(),
            r.pending().stops@.len() == 0,
            r.pending().gamma == Gamma::Gamma22,
            r.pending().extend_mode == ExtendMode::Clamp,
    {
        LinearGradientBrushBuilder {
            properties: BrushProperties::new(Scalar::one(), &Matrix3x2f::identity()),
            linear_properties: LinearGradientBrushProperties {
                start: Point2f::origin(),
                end: Point2f::origin(),
            },
            stops: Stops::Pending(GradientStopBuilder::new()),
        }
    }

    /// Sets the opacity and the transform.
    pub fn with_properties(self, properties: BrushProperties) -> (r: Self)
        ensures
            r.properties == properties,
            r.linear_properties == self.linear_properties,
            r.stops == self.stops,
    {
        LinearGradientBrushBuilder { properties, ..self }
    }

    pub fn with_opacity(self, opacity: Scalar) -> (r: Self)
        ensures
            r.properties.opacity == opacity,
            r.properties.transform == self.properties.transform,
            r.linear_properties == self.linear_properties,
            r.stops == self.stops,
    {
        let transform = self.properties.transform;
        LinearGradientBrushBuilder { properties: BrushProperties { opacity, transform }, ..self }
    }

    pub fn with_transform(self, transform: Matrix3x2f) -> (r: Self)
        ensures
            r.properties.transform == transform,
            r.properties.opacity == self.properties.opacity,
            r.linear_properties == self.linear_properties,
            r.stops == self.stops,
    {
        let opacity = self.properties.opacity;
        LinearGradientBrushBuilder { properties: BrushProperties { opacity, transform }, ..self }
    }

    /// Sets the point at which the stop at position zero applies in full.
    pub fn with_start(self, start: Point2f) -> (r: Self)
        ensures
            r.linear_properties.start == start,
            r.linear_properties.end == self.linear_properties.end,
            r.properties == self.properties,
            r.stops == self.stops,
    {
        let end = self.linear_properties.end;
        LinearGradientBrushBuilder {
            linear_properties: LinearGradientBrushProperties { start, end },
            ..self
        }
    }

    /// Sets the point at which the stop at position one applies in full.
    pub fn with_end(self, end: Point2f) -> (r: Self)
        ensures
            r.linear_properties.end == end,
            r.linear_properties.start == self.linear_properties.start,
            r.properties == self.properties,
            r.stops == self.stops,
    {
        let start = self.linear_properties.start;
        LinearGradientBrushBuilder {
            linear_properties: LinearGradientBrushProperties { start, end },
            ..self
        }
    }

    /// Sets how colors are found outside positions zero to one. Only while
    /// the stop list is pending.
    pub fn with_extend_mode(self, mode: ExtendMode) -> (r: Self)
        requires
            self.is_pending(),
        ensures
            r.same_brush_fields(&self),
            r.is_pending(),
            r.pending().extend_mode == mode,
            r.pending().gamma == self.pending().gamma,
            r.pending().stops@ == self.pending().stops@,
    {
        match self.stops {
            Stops::Pending(b) => LinearGradientBrushBuilder {
                stops: Stops::Pending(GradientStopBuilder { extend_mode: mode, ..b }),
                ..self
            },
            Stops::Collection(_) => {
                proof {
                    assert(false);
                }
                self
            },
        }
    }

    /// Sets the gamma the colors are interpolated in. Only while the stop
    /// list is pending.
    pub fn with_gamma(self, gamma: Gamma) -> (r: Self)
        requires
            self.is_pending(),
        ensures
            r.same_brush_fields(&self),
            r.is_pending(),
            r.pending().gamma == gamma,
            r.pending().extend_mode == self.pending().extend_mode,
            r.pending().stops@ == self.pending().stops@,
    {
        match self.stops {
            Stops::Pending(b) => LinearGradientBrushBuilder {
                stops: Stops::Pending(GradientStopBuilder { gamma, ..b }),
                ..self
            },
            Stops::Collection(_) => {
                proof {
                    assert(false);
                }
                self
            },
        }
    }

    /// Appends one stop. Only while the stop list is pending.
    pub fn with_stop(self, stop: GradientStop) -> (r: Self)
        requires
            self.is_pending(),
        ensures
            r.same_brush_fields(&self),
            r.is_pending(),
            r.pending().stops@ == self.pending().stops@.push(stop),
            r.pending().gamma == self.pending().gamma,
            r.pending().extend_mode == self.pending().extend_mode,
    {
        match self.stops {
            Stops::Pending(b) => {
                let mut list = b.stops;
                list.push(stop);
                LinearGradientBrushBuilder {
                    stops: Stops::Pending(GradientStopBuilder { stops: list, ..b }),
                    ..self
                }
            },
            Stops::Collection(_) => {
                proof {
                    assert(false);
                }
                self
            },
        }
    }

    /// Appends every stop of `stops`, in order. Only while the stop list is
    /// pending.
    pub fn with_stops(self, stops: &[GradientStop]) -> (r: Self)
        requires
            self.is_pending(),
        ensures
            r.same_brush_fields(&self),
            r.is_pending(),
            r.pending().stops@ == self.pending().stops@ + stops@,
            r.pending().gamma == self.pending().gamma,
            r.pending().extend_mode == self.pending().extend_mode,
    {
        match self.stops {
            Stops::Pending(b) => {
                let mut list = b.stops;
                let ghost start = list@;
                let mut i: usize = 0;
                while i < stops.len()
                    invariant
                        i <= stops@.len(),
                        list@ == start + stops@.subrange(0, i as int),
                    decreases stops@.len() - i,
                {
                    list.push(stops[i]);
                    i = i + 1;
                    proof {
                        assert(list@ =~= start + stops@.subrange(0, i as int));
                    }
                }
                proof {
                    assert(stops@.subrange(0, i as int) =~= stops@);
                }
                LinearGradientBrushBuilder {
                    stops: Stops::Pending(GradientStopBuilder { stops: list, ..b }),
                    ..self
                }
            },
            Stops::Collection(_) => {
                proof {
                    assert(false);
                }
                self
            },
        }
    }

    /// Paints with an existing collection instead of a new one.
    pub fn with_stop_collection(self, stops: &'a GradientStopCollection) -> (r: Self)
        ensures
            r.same_brush_fields(&self),
            r.stops == Stops::Collection(stops),
    {
        LinearGradientBrushBuilder { stops: Stops::Collection(stops), ..self }
    }

    /// Creates the brush. A pending stop list becomes a new collection
    /// first, which the brush then holds alone; an existing collection gains
    /// the brush's reference.
    pub fn build(self, factory: &mut Factory) -> (r: D2DResult<LinearGradientBrush>)
        requires
            old(factory).wf(),
            self.stops is Collection ==> {
                let c = self.stops->Collection_0.id();
                &&& old(factory).live(c)
                &&& old(factory).is_collection(c)
                &&& old(factory).refs()[c as int] < u64::MAX
            },
        ensures
            final(factory).wf(),
            match self.stops {
                Stops::Pending(b) => if b.stops@.len() == 0 {
                    &&& r is Err
                    &&& r->Err_0.hr == E_INVALIDARG
                    &&& final(factory).refs() == old(factory).refs()
                    &&& final(factory).objects() == old(factory).objects()
                } else {
                    let n = old(factory).len();
                    &&& r is Ok
                    &&& r->Ok_0.id() == n + 1
                    &&& final(factory).refs() == old(factory).refs().push(1).push(1)
                    &&& final(factory).objects().len() == n + 2
                    &&& final(factory).objects().subrange(0, n as int) == old(factory).objects()
                    &&& is_collection_of(
                        final(factory).objects()[n as int],
                        b.stops@,
                        b.gamma,
                        b.extend_mode,
                    )
                    &&& is_brush_of(
                        final(factory).objects()[n + 1 as int],
                        self.properties,
                        self.linear_properties,
                        n,
                    )
                },
                Stops::Collection(c) => {
                    let n = old(factory).len();
                    &&& r is Ok
                    &&& r->Ok_0.id() == n
                    &&& final(factory).refs() == old(factory).refs().update(
                        c.id() as int,
                        (old(factory).refs()[c.id() as int] + 1) as u64,
                    ).push(1)
                    &&& final(factory).objects().len() == n + 1
                    &&& final(factory).objects().drop_last() == old(factory).objects()
                    &&& is_brush_of(
                        final(factory).objects().last(),
                        self.properties,
                        self.linear_properties,
                        c.id(),
                    )
                },
            },
    {
        match self.stops {
            Stops::Pending(b) => {
                let ghost f0 = *factory;
                let collection = match b.build(factory) {
                    Ok(c) => c,
                    Err(e) => {
                        return Err(e);
                    },
                };
                let ghost f1 = *factory;
                proof {
                    let n = f0.len();
                    assert(f1.refs()[n as int] == 1);
                    assert(f1.objects()[n as int] == f1.objects().last());
                }
                let id = factory.create_linear_gradient_brush(
                    self.linear_properties,
                    self.properties,
                    collection.object_id(),
                );
                let ghost f2 = *factory;
                proof {
                    let n = f0.len();
                    assert(f2.refs()[n as int] == 2);
                    assert(f2.objects()[n as int] == f1.objects()[n as int]);
                }
                collection.release(factory);
                proof {
                    let n = f0.len();
                    assert(f1.refs() =~= f0.refs().push(1));
                    assert(f2.refs()[n as int] == 2);
                    assert(factory.refs() =~= f0.refs().push(1).push(1));
                    assert(factory.objects().subrange(0, n as int) =~= f0.objects());
                    assert(f1.objects().drop_last() == f0.objects());
                    assert(factory.objects()[n as int] == f1.objects()[n as int]);
                }
                Ok(LinearGradientBrush::from_id(id))
            },
            Stops::Collection(c) => {
                let id = factory.create_linear_gradient_brush(
                    self.linear_properties,
                    self.properties,
                    c.object_id(),
                );
                proof {
                    assert(factory.objects().drop_last() =~= old(factory).objects());
                }
                Ok(LinearGradientBrush::from_id(id))
            },
        }
    }
}

} // verus!
