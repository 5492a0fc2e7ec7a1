//! The discrete core of a path tracer.
//!
//! The crate holds everything a renderer decides without doing arithmetic on
//! real numbers: how bounding boxes combine, how a bounding-volume hierarchy is
//! built and walked, which of two intersections wins, how a ray's colour is
//! put together bounce by bounce, when a material absorbs a ray, how lattice
//! noise addresses its tables, and how a finished frame is laid out as text.
//!
//! Real quantities travel through these types as [`Scalar`]s, which carry a
//! single-precision value bit for bit and know its order, so that every
//! comparison made here is the one the embedding program would make.
//! Arithmetic on those values (intersections, reflections, trigonometry) is
//! the embedding program's business: it hands the results in as arguments,
//! or as functions that the library calls where it needs an answer.
//!
//! [`Scalar`]: scalar::Scalar

pub mod camera;
pub mod error;
pub mod frame;
pub mod geometry;
pub mod intersection;
pub mod material;
pub mod random;
pub mod renderer;
pub mod scalar;
pub mod texture;
pub mod vec3;
