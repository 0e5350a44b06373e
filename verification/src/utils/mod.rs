//! Image utilities.

pub mod imaging;
