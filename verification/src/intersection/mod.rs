//! Rays and what they hit.

pub mod hit_record;
pub mod ray;
