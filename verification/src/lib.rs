//! A kinematic collision-response library: move a convex shape through a
//! scene of colliders, sliding along the obstacles it meets instead of
//! stopping at them or sinking into them ("move and slide").
//!
//! All geometry is expressed in a deterministic fixed-point arithmetic
//! (see [`fixed`]), so every function here has an exact contract.
//! Collision detection itself (shape sweeps and overlap queries) is an
//! external collaborator: the engine in [`engine`] is a step machine that
//! tells its driver which query to run next and consumes the query's
//! result, so the whole decision logic is verified while the geometry
//! backend stays outside. [`driver`] wraps the whole exchange in one call,
//! taking the geometry queries as closures.

pub mod fixed;
pub mod vec2;
pub mod depenetrate;
pub mod clip;
pub mod engine;
pub mod driver;
pub mod laws;
