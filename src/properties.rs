//! Flat configuration records, as the engine receives them.
use vstd::prelude::*;
use crate::math::{ColorF, Matrix3x2f, Point2f, Scalar};

verus! {

/// Opacity and transform shared by every brush.
#[derive(PartialEq, Eq, Structural, Clone, Copy, Debug)]
pub struct BrushProperties {
    pub opacity: Scalar,
    pub transform: Matrix3x2f,
}

impl BrushProperties {
    pub fn new(opacity: Scalar, transform: &Matrix3x2f) -> (r: BrushProperties)
        ensures
            r.opacity == opacity,
            r.transform == *transform,
    {
        BrushProperties { opacity, transform: *transform }
    }
}

/// The two points between which a linear gradient runs.
#[derive(PartialEq, Eq, Structural, Clone, Copy, Debug)]
pub struct LinearGradientBrushProperties {
    pub start: Point2f,
    pub end: Point2f,
}

/// One (position, color) point of a gradient.
#[derive(PartialEq, Eq, Structural, Clone, Copy, Debug)]
pub struct GradientStop {
    pub position: Scalar,
    pub color: ColorF,
}

/// Stroke configuration with each mode given by its engine code.
#[derive(PartialEq, Eq, Structural, Clone, Copy, Debug)]
pub struct StrokeStyleProperties1 {
    pub start_cap: u32,
    pub end_cap: u32,
    pub dash_cap: u32,
    pub line_join: u32,
    pub miter_limit: Scalar,
    pub dash_style: u32,
    pub dash_offset: Scalar,
    pub transform_type: u32,
}

} // verus!
