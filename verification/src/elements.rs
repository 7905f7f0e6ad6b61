//! A container of rectangles whose constructor hands back a mutable
//! borrow of the element it just stored.

use vstd::prelude::*;

verus! {

/// An axis-aligned rectangle position.
#[derive(Clone, Copy, Debug, PartialEq, Eq, Structural)]
pub struct Rect {
    pub x: u16,
    pub y: u16,
}

/// Owns rectangles.
pub struct Container {
    pub elements: Vec<Rect>,
}

impl Container {
    /// An empty container.
    pub fn new() -> (c: Container)
        ensures
            c.elements@ == Seq::<Rect>::empty(),
    {
        Container { elements: Vec::new() }
    }
}

impl Rect {
    /// Store a new rectangle at `(x, y)` in the container and hand back a
    /// mutable borrow of the stored element.
    pub fn new(c: &mut Container, x: u16, y: u16) -> (r: &mut Rect)
        ensures
            *r == (Rect { x, y }),
            final(c).elements@ == old(c).elements@.push(*final(r)),
    {
        let o = Rect { x, y };
        c.elements.push(o);
        let idx = c.elements.len() - 1;
        &mut c.elements[idx]
    }
}

} // verus!
