//! Trail bookkeeping for a light-cycle game: the segment model, the policy
//! that turns per-tick motion into a growing sequence of lines and arcs, and
//! the collision detector's decisions. The geometry is left to the caller, as
//! the point and scalar type parameters and the closures passed in.
pub mod segment;
pub mod zindex;
pub mod trail;
pub mod collide;
pub mod laws;
