//! Data exchanged with clients and kept about scenes and images.

pub mod export;
pub mod images;
pub mod render;
pub mod scene;
