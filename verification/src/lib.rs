//! The decisions of a ray tracer.
//!
//! A ray tracer computes with floating-point numbers and decides on what it
//! has computed: which of two solutions is the hit, which of many hits is the
//! nearest, whether a path of light goes on, through which points of a pixel
//! rays are sent and in which order pixels are drawn. This library holds the
//! decisions, each with a contract that says exactly what is decided. The
//! arithmetic belongs to its callers, who hand over what they have computed:
//!
//! - [`scalar`] compares single-precision numbers by their bit patterns;
//! - [`world`] has the trait of everything a ray can hit, the scene that scans
//!   its objects for the nearest hit, and the rules by which sphere, plane and
//!   triangle accept a solution of their equations;
//! - [`material`] has the trait of surface materials and the rules by which
//!   metal and glass scatter, mirror and refract;
//! - [`raytracer`] follows a ray from bounce to bounce and orders the pixels
//!   of a frame;
//! - [`sampling`] says where the rays of one pixel pass;
//! - [`grid`] counts through rows and columns, for the last two;
//! - [`vector`] tells the verifier of the vector types that pass through.

pub mod grid;
pub mod material;
pub mod raytracer;
pub mod sampling;
pub mod scalar;
pub mod vector;
pub mod world;

pub use raytracer::{trace, LightPath, Raster};
pub use sampling::{BasicSS, Jitter, MontecarloSS, OversamplingSS, SamplingStrategy};
pub use scalar::Scalar;
