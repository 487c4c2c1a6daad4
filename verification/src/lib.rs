//! Orbital propagation and scheduling engine.
//!
//! The engine keeps the state of many orbiting bodies, advances their
//! positions over time, and coordinates that work in fixed-size batches so a
//! real-time consumer can render smooth motion without stalling on expensive
//! computation.  All physical quantities are held as fixed-point integers
//! (meters, micro-degrees, nano-radians, milliseconds): the scheduling,
//! loading and interpolation rules are stated and proved exactly, and the
//! orbital numerics are pinned to definitional spec-level mirrors of their
//! fixed-point computations, whose closeness to the real functions is
//! exercised by tests.

pub mod num;
pub mod angles;
pub mod elements;
pub mod kepler;
pub mod geometry;
pub mod interp;
pub mod batch;
pub mod engine;
pub mod loader;
