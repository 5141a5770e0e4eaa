//! Host-side logic of a double-buffered flocking simulation.
//!
//! Scalars are carried as IEEE-754 single-precision words (`u32`), so that
//! every record has the exact layout the compute kernel reads.

pub mod boid;
pub mod boids;
pub mod bytes;
pub mod camera;
pub mod instance;
pub mod layout;
pub mod model;
pub mod point_cloud;
pub mod record;
pub mod scalar;
pub mod simulation;
pub mod store;
pub mod texture;
pub mod uniforms;
pub mod vertex;
