//! Mode selections and their codes on the engine side.
use vstd::prelude::*;

verus! {

#[derive(PartialEq, Eq, Structural, Clone, Copy, Debug)]
pub enum ExtendMode {
    Clamp,
    Wrap,
    Mirror,
}

#[derive(PartialEq, Eq, Structural, Clone, Copy, Debug)]
pub enum Gamma {
    Gamma22,
    Gamma10,
}

#[derive(PartialEq, Eq, Structural, Clone, Copy, Debug)]
pub enum CapStyle {
    Flat,
    Square,
    Round,
    Triangle,
}

#[derive(PartialEq, Eq, Structural, Clone, Copy, Debug)]
pub enum LineJoin {
    Miter,
    Bevel,
    Round,
    MiterOrBevel,
}

#[derive(PartialEq, Eq, Structural, Clone, Copy, Debug)]
pub enum DashStyle {
    Solid,
    Dash,
    Dot,
    DashDot,
    DashDotDot,
    Custom,
}

#[derive(PartialEq, Eq, Structural, Clone, Copy, Debug)]
pub enum StrokeTransformType {
    Normal,
    Fixed,
    Hairline,
}

pub open spec fn cap_style_code(v: CapStyle) -> u32 {
    match v {
        CapStyle::Flat => 0,
        CapStyle::Square => 1,
        CapStyle::Round => 2,
        CapStyle::Triangle => 3,
    }
}

pub open spec fn line_join_code(v: LineJoin) -> u32 {
    match v {
        LineJoin::Miter => 0,
        LineJoin::Bevel => 1,
        LineJoin::Round => 2,
        LineJoin::MiterOrBevel => 3,
    }
}

pub open spec fn dash_style_code(v: DashStyle) -> u32 {
    match v {
        DashStyle::Solid => 0,
        DashStyle::Dash => 1,
        DashStyle::Dot => 2,
        DashStyle::DashDot => 3,
        DashStyle::DashDotDot => 4,
        DashStyle::Custom => 5,
    }
}

pub open spec fn transform_type_code(v: StrokeTransformType) -> u32 {
    match v {
        StrokeTransformType::Normal => 0,
        StrokeTransformType::Fixed => 1,
        StrokeTransformType::Hairline => 2,
    }
}

impl CapStyle {
    pub fn to_native(self) -> (r: u32)
        ensures
            r == cap_style_code(self),
    {
        match self {
            CapStyle::Flat => 0,
            CapStyle::Square => 1,
            CapStyle::Round => 2,
            CapStyle::Triangle => 3,
        }
    }
}

impl LineJoin {
    pub fn to_native(self) -> (r: u32)
        ensures
            r == line_join_code(self),
    {
        match self {
            LineJoin::Miter => 0,
            LineJoin::Bevel => 1,
            LineJoin::Round => 2,
            LineJoin::MiterOrBevel => 3,
        }
    }
}

impl DashStyle {
    pub fn to_native(self) -> (r: u32)
        ensures
            r == dash_style_code(self),
    {
        match self {
            DashStyle::Solid => 0,
            DashStyle::Dash => 1,
            DashStyle::Dot => 2,
            DashStyle::DashDot => 3,
            DashStyle::DashDotDot => 4,
            DashStyle::Custom => 5,
        }
    }
}

impl StrokeTransformType {
    pub fn to_native(self) -> (r: u32)
        ensures
            r == transform_type_code(self),
    {
        match self {
            StrokeTransformType::Normal => 0,
            StrokeTransformType::Fixed => 1,
            StrokeTransformType::Hairline => 2,
        }
    }
}

} // verus!
