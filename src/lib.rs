//! Builders and reference-counted resource handles for a 2D drawing engine.
//!
//! Configuration is accumulated by builders, checked, and handed to a
//! [`factory::Factory`], which owns the engine objects and counts the
//! handles that refer to each of them.
pub mod brush;
pub mod enums;
pub mod error;
pub mod factory;
pub mod geometry;
pub mod gradient_builder;
pub mod math;
pub mod properties;
pub mod stroke_style;
