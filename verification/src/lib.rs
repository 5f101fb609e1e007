//! Safety layer around a handle-based convex-decomposition engine.
//!
//! The native engine is an opaque object reached through a C-compatible
//! function table; it owns its result buffers and exposes a cancellable,
//! long-running computation.  This crate holds the decision layer around
//! that object: exclusive ownership of the computation handle with
//! deterministic release, validated conversion between the native parameter
//! record and an ergonomic parameter type, and an index-driven iterator that
//! copies per-hull geometry into owned storage before the handle goes away.
//!
//! Scalars that the engine treats as 64-bit floating-point values are carried
//! here as their IEEE-754 bit patterns: this layer never computes with them,
//! it only moves them between records and buffers unchanged.

pub mod compute;
pub mod engine;
pub mod geometry;
pub mod hull;
pub mod iter;
pub mod params;

pub use compute::harvest;
pub use compute::prepare_compute;
pub use compute::submit;
pub use compute::ComputeError;
pub use compute::ComputeRequest;
pub use engine::EngineState;
pub use engine::VHACD;
pub use geometry::Mesh;
pub use geometry::Point3;
pub use geometry::Triangle;
pub use hull::ConvexHull;
pub use iter::ConvexHullIter;
pub use params::default_native;
pub use params::Mode;
pub use params::NativeParameters;
pub use params::ParameterError;
pub use params::Parameters;
