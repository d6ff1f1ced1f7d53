//! Discrete core of a general relativity ray tracer: the charts and tangent
//! spaces that coordinates are read in, the tags under which they travel to
//! and from the GPU integrator, texture lookup, pixel numbering, frame
//! encoding, and the decisions that end or continue a traced ray.
pub mod config;
pub mod constants;
pub mod geometry;
pub mod graphics;
pub mod integrator;
pub mod scene;
