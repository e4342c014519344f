//! Core of a streaming plot: bounded sample queues, per-frame axis
//! resolution, and the normalization/culling pipeline that turns raw samples
//! into clip-space vertices.
//!
//! Samples are integer-valued: a coordinate is an `i32` in the caller's own
//! fixed-point unit. Normalized coordinates are exact rationals ([`Ratio`]),
//! so the projection pipeline is free of rounding. The rendering backend — a
//! window, a GPU context, fonts — is a collaborator that this crate only
//! emits [`Frame`] values to; it lives outside the library.

mod figure;
mod normalize;
mod queue;
mod utils;

pub use figure::{
    AxisLimits, Figure, FigureConfig, FigureState, Frame, PlotError, PlotType, SurfaceEvent,
};
pub use normalize::{normalize_coord, normalize_points, Ratio, Vertex};
pub use queue::{ComplexSampleQueue, SampleQueue};
pub use utils::{calc_xlims, calc_ylims, Point2D};
