//! Verified core of an instanced-quad rendering sandbox: the bookkeeping of
//! the per-instance GPU buffer, the fixed-timestep accumulator that drives the
//! simulation, the bouncing-body simulation step in fixed-point units, the
//! decisions of the main loop, the layout of the texture upload, and the
//! presentation-surface size that projections depend on.

pub mod frame_loop;
pub mod instances;
pub mod motion;
pub mod shader;
pub mod surface;
pub mod texture;
pub mod timestep;
pub mod world;
