//! Export of a scene to standard 3D formats.

use vstd::prelude::*;

verus! {

/// Export format options.
#[derive(Debug, Clone, Copy, PartialEq, Eq, Structural)]
pub enum ExportFormat {
    /// OBJ file with MTL material.
    Obj,
    /// GLTF 2.0 format.
    Gltf,
    /// GLB binary format.
    Glb,
    /// PLY point cloud format.
    Ply,
}

/// Whether texture maps are included in an export when the request does not say.
pub fn default_true() -> (b: bool)
    ensures
        b,
{
    true
}

} // verus!
