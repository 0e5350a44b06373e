//! Neural radiance field training and the structure of its encodings.
//!
//! The numerical parts (losses, ray geometry, sample positions and the sine and
//! cosine features) are floating point and are computed by the application;
//! this module holds the bookkeeping around them.

pub mod engine;
pub mod volume;
