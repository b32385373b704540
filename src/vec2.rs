use vstd::prelude::*;

verus! {

/// A position on screen or in the background map.
#[derive(Clone, Copy)]
pub struct Vec2<T: Copy> {
    pub x: T,
    pub y: T,
}

} // verus!
