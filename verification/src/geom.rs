//! Plain geometry values used by the window and render-target types.

use vstd::prelude::*;

verus! {

/// A two-dimensional size in whole pixels.
#[derive(Clone, Copy, Debug, PartialEq, Eq, Structural)]
pub struct Size2D {
    /// Width in pixels.
    pub width: i32,
    /// Height in pixels.
    pub height: i32,
}

} // verus!
