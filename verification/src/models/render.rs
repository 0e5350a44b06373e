//! Requests to render novel views.

use vstd::prelude::*;

verus! {

/// Width in pixels of a rendered view when the request does not say.
pub fn default_width() -> (w: i32)
    ensures
        w == 512,
{
    512
}

/// Height in pixels of a rendered view when the request does not say.
pub fn default_height() -> (h: i32)
    ensures
        h == 512,
{
    512
}

} // verus!
