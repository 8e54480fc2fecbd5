//! Stroke styles and their builder.
use vstd::prelude::*;
use crate::enums::{
    cap_style_code, dash_style_code, line_join_code, transform_type_code, CapStyle, DashStyle,
    LineJoin, StrokeTransformType,
};
use crate::error::{D2DResult, E_INVALIDARG};
use crate::factory::{is_stroke_style_of, Factory, NativeObject};
use crate::math::{Scalar, TEN_BITS, ZERO_BITS};
use crate::properties::StrokeStyleProperties1;
use crate::brush::{ref_added, ref_dropped};

verus! {

/// A builder left at its defaults is accepted by the engine and hands it
/// flat caps, miter joins, a miter limit of ten, solid dashes at offset
/// zero, a normal transform and no dash array.
pub proof fn lemma_default_stroke_style(b: StrokeStyleBuilder1)
    requires
        b.start_cap == CapStyle::Flat,
        b.end_cap == CapStyle::Flat,
        b.dash_cap == CapStyle::Flat,
        b.line_join == LineJoin::Miter,
        b.miter_limit.bits == TEN_BITS,
        b.dash_style == DashStyle::Solid,
        b.dash_offset.bits == ZERO_BITS,
        b.transform_type == StrokeTransformType::Normal,
        b.dashes is None,
    ensures
        b.accepted(),
        b.dash_seq().len() == 0,
        b.properties() == (StrokeStyleProperties1 {
            start_cap: 0,
            end_cap: 0,
            dash_cap: 0,
            line_join: 0,
            miter_limit: Scalar { bits: TEN_BITS },
            dash_style: 0,
            dash_offset: Scalar { bits: ZERO_BITS },
            transform_type: 0,
        }),
{
}

/// What a stroke style reports is what its builder held, each mode telling
/// apart the value it was set to.
pub proof fn lemma_stroke_style_round_trip(
    o: NativeObject,
    b: StrokeStyleBuilder1,
    reported: StrokeStyleProperties1,
    dashes: Seq<Scalar>,
)
    requires
        is_stroke_style_of(o, b.properties(), b.dash_seq()),
        is_stroke_style_of(o, reported, dashes),
    ensures
        reported == b.properties(),
        dashes == b.dash_seq(),
        forall|c: CapStyle| reported.start_cap == cap_style_code(c) <==> c == b.start_cap,
        forall|c: CapStyle| reported.end_cap == cap_style_code(c) <==> c == b.end_cap,
        forall|c: CapStyle| reported.dash_cap == cap_style_code(c) <==> c == b.dash_cap,
        forall|j: LineJoin| reported.line_join == line_join_code(j) <==> j == b.line_join,
        forall|d: DashStyle| reported.dash_style == dash_style_code(d) <==> d == b.dash_style,
        forall|t: StrokeTransformType|
            reported.transform_type == transform_type_code(t) <==> t == b.transform_type,
        reported.miter_limit == b.miter_limit,
        reported.dash_offset == b.dash_offset,
{
}

/// A shared reference to a stroke style.
pub struct StrokeStyle1 {
    id: usize,
}

impl StrokeStyle1 {
    pub closed spec fn id(&self) -> nat {
        self.id as nat
    }

    pub fn object_id(&self) -> (r: usize)
        ensures
            r == self.id(),
    {
        self.id
    }

    pub fn clone_in(&self, factory: &mut Factory) -> (r: StrokeStyle1)
        requires
            old(factory).wf(),
            old(factory).live(self.id()),
            old(factory).refs()[self.id() as int] < u64::MAX,
        ensures
            r.id() == self.id(),
            ref_added(final(factory), old(factory), self.id()),
    {
        factory.add_ref(self.id);
        StrokeStyle1 { id: self.id }
    }

    pub fn release(self, factory: &mut Factory)
        requires
            old(factory).wf(),
            old(factory).live(self.id()),
        ensures
            ref_dropped(final(factory), old(factory), self.id()),
    {
        factory.release(self.id);
    }

    /// The properties and the dash array the style was made with.
    pub fn contents(&self, factory: &Factory) -> (r: (StrokeStyleProperties1, Vec<Scalar>))
        requires
            factory.wf(),
            factory.is_stroke_style(self.id()),
        ensures
            is_stroke_style_of(factory.objects()[self.id() as int], r.0, r.1@),
    {
        factory.stroke_style_parts(self.id)
    }
}

/// Configures a stroke style. Defaults: flat caps, miter joins, a miter
/// limit of ten, solid dashes at offset zero, a normal transform, no dash
/// array.
pub struct StrokeStyleBuilder1<'a> {
    pub start_cap: CapStyle,
    pub end_cap: CapStyle,
    pub dash_cap: CapStyle,
    pub line_join: LineJoin,
    pub miter_limit: Scalar,
    pub dash_style: DashStyle,
    pub dash_offset: Scalar,
    pub transform_type: StrokeTransformType,
    pub dashes: Option<&'a [Scalar]>,
}

impl<'a> StrokeStyleBuilder1<'a> {
    /// The record handed to the engine.
    pub open spec fn properties(&self) -> StrokeStyleProperties1 {
        StrokeStyleProperties1 {
            start_cap: cap_style_code(self.start_cap),
            end_cap: cap_style_code(self.end_cap),
            dash_cap: cap_style_code(self.dash_cap),
            line_join: line_join_code(self.line_join),
            miter_limit: self.miter_limit,
            dash_style: dash_style_code(self.dash_style),
            dash_offset: self.dash_offset,
            transform_type: transform_type_code(self.transform_type),
        }
    }

    /// The dash array handed to the engine, empty when none was given.
    pub open spec fn dash_seq(&self) -> Seq<Scalar> {
        match self.dashes {
            Some(d) => d@,
            None => Seq::empty(),
        }
    }

    /// The engine takes a dash array exactly with the custom dash style.
    pub open spec fn accepted(&self) -> bool {
        (self.dash_style == DashStyle::Custom) == (self.dash_seq().len() > 0)
    }

    pub fn new() -> (r: StrokeStyleBuilder1<'a>)
        ensures
            r.start_cap == CapStyle::Flat,
            r.end_cap == CapStyle::Flat,
            r.dash_cap == CapStyle::Flat,
            r.line_join == LineJoin::Miter,
            r.miter_limit.bits == TEN_BITS,
            r.dash_style == DashStyle::Solid,
            r.dash_offset.bits == ZERO_BITS,
            r.transform_type == StrokeTransformType::Normal,
            r.dashes is None,
    {
        StrokeStyleBuilder1 {
            start_cap: CapStyle::Flat,
            end_cap: CapStyle::Flat,
            dash_cap: CapStyle::Flat,
            line_join: LineJoin::Miter,
            miter_limit: Scalar::ten(),
            dash_style: DashStyle::Solid,
            dash_offset: Scalar::zero(),
            transform_type: StrokeTransformType::Normal,
            dashes: None,
        }
    }

    /// Creates the style; the engine refuses a dash array without the custom
    /// dash style, and the custom style without a dash array.
    pub fn build(self, factory: &mut Factory) -> (r: D2DResult<StrokeStyle1>)
        requires
            old(factory).wf(),
        ensures
            final(factory).wf(),
            if !self.accepted() {
                &&& r is Err
                &&& r->Err_0.hr == E_INVALIDARG
                &&& final(factory).refs() == old(factory).refs()
                &&& final(factory).objects() == old(factory).objects()
            } else {
                &&& r is Ok
                &&& r->Ok_0.id() == old(factory).len()
                &&& final(factory).refs() == old(factory).refs().push(1)
                &&& final(factory).objects().len() == old(factory).len() + 1
                &&& final(factory).objects().drop_last() == old(factory).objects()
                &&& is_stroke_style_of(
                    final(factory).objects().last(),
                    self.properties(),
                    self.dash_seq(),
                )
            },
    {
        let properties = self.to_d2d1();
        let mut dashes: Vec<Scalar> = Vec::new();
        match self.dashes {
            Some(d) => {
                let mut i: usize = 0;
                while i < d.len()
                    invariant
                        i <= d@.len(),
                        dashes@ == d@.subrange(0, i as int),
                    decreases d@.len() - i,
                {
                    dashes.push(d[i]);
                    i = i + 1;
                    proof {
                        assert(dashes@ =~= d@.subrange(0, i as int));
                    }
                }
                proof {
                    assert(dashes@ =~= d@);
                }
            },
            None => {
                proof {
                    assert(dashes@ =~= Seq::<Scalar>::empty());
                }
            },
        }
        match factory.create_stroke_style(properties, dashes) {
            Ok(id) => Ok(StrokeStyle1 { id }),
            Err(e) => Err(e),
        }
    }

    pub fn with_start_cap(self, start_cap: CapStyle) -> (r: Self)
        ensures
            r == (Self { start_cap, ..self }),
    {
        Self { start_cap, ..self }
    }

    pub fn with_end_cap(self, end_cap: CapStyle) -> (r: Self)
        ensures
            r == (Self { end_cap, ..self }),
    {
        Self { end_cap, ..self }
    }

    pub fn with_dash_cap(self, dash_cap: CapStyle) -> (r: Self)
        ensures
            r == (Self { dash_cap, ..self }),
    {
        Self { dash_cap, ..self }
    }

    pub fn with_line_join(self, line_join: LineJoin) -> (r: Self)
        ensures
            r == (Self { line_join, ..self }),
    {
        Self { line_join, ..self }
    }

    pub fn with_miter_limit(self, miter_limit: Scalar) -> (r: Self)
        ensures
            r == (Self { miter_limit, ..self }),
    {
        Self { miter_limit, ..self }
    }

    pub fn with_dash_style(self, dash_style: DashStyle) -> (r: Self)
        ensures
            r == (Self { dash_style, ..self }),
    {
        Self { dash_style, ..self }
    }

    pub fn with_dash_offset(self, dash_offset: Scalar) -> (r: Self)
        ensures
            r == (Self { dash_offset, ..self }),
    {
        Self { dash_offset, ..self }
    }

    /// Gives a dash array, which selects the custom dash style.
    pub fn with_dashes(self, dashes: &'a [Scalar]) -> (r: Self)
        ensures
            r == (Self { dash_style: DashStyle::Custom, dashes: Some(dashes), ..self }),
    {
        Self { dash_style: DashStyle::Custom, dashes: Some(dashes), ..self }
    }

    /// The record handed to the engine, each mode by its code.
    pub fn to_d2d1(&self) -> (r: StrokeStyleProperties1)
        ensures
            r == self.properties(),
    {
        StrokeStyleProperties1 {
            start_cap: self.start_cap.to_native(),
            end_cap: self.end_cap.to_native(),
            dash_cap: self.dash_cap.to_native(),
            line_join: self.line_join.to_native(),
            miter_limit: self.miter_limit,
            dash_style: self.dash_style.to_native(),
            dash_offset: self.dash_offset,
            transform_type: self.transform_type.to_native(),
        }
    }
}

} // verus!
