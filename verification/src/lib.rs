//! NeRF Studio: the verified core of a service that builds 3D scenes from photo
//! collections.
//!
//! The modules here hold the decisions and the naming, parsing and bookkeeping
//! rules of the service; the HTTP server, the database and the floating-point
//! rendering mathematics live in the surrounding application.

pub mod api;
pub mod ids;
pub mod models;
pub mod nerf;
pub mod text;
pub mod utils;
