//! Viewport dimensions as plain pixel counts.

use vstd::prelude::*;

verus! {

/// Current screen dimensions in whole pixels, as polled once per rebuild
/// check from the host's window layer.
#[derive(Clone, Copy, Debug, PartialEq, Eq, Structural)]
pub struct ScreenDims {
    pub width: u32,
    pub height: u32,
}

impl ScreenDims {
    pub fn new(width: u32, height: u32) -> (d: ScreenDims)
        ensures
            d.width == width,
            d.height == height,
    {
        ScreenDims { width, height }
    }
}

/// Equality on an optional dimension reading, usable from executable code.
pub fn dims_opt_eq(a: &Option<ScreenDims>, b: &Option<ScreenDims>) -> (r: bool)
    ensures
        r == (*a == *b),
{
    match (a, b) {
        (Option::Some(x), Option::Some(y)) => x.width == y.width && x.height == y.height,
        (Option::None, Option::None) => true,
        _ => false,
    }
}

} // verus!
