//! Axis-aligned rectangles.

use vstd::prelude::*;

verus! {

/// The rectangle with the top-left corner `(x, y)` and the given extent.
#[derive(Clone, Copy, Debug, PartialEq, Eq)]
pub struct Rectangle<T> {
    pub x: T,
    pub y: T,
    pub width: T,
    pub height: T,
}

} // verus!
