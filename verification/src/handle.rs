//! Non-owning references into the dispatcher's widget set.
//!
//! The widget set is replaced wholesale, and every replacement starts a new
//! generation. A reference names a generation and a position; it resolves
//! only while its generation is the current one and its position is filled.

use vstd::prelude::*;

verus! {

/// A non-owning reference to a top-level widget.
#[derive(Clone, Copy, PartialEq, Eq, Structural, Debug)]
pub struct Handle {
    pub generation: u64,
    pub widget: usize,
}

/// A non-owning reference to an event receiver: a top-level list, or, with
/// `item` set, the entry at that position of the list.
#[derive(Clone, Copy, PartialEq, Eq, Structural, Debug)]
pub struct Receiver {
    pub target: Handle,
    pub item: Option<usize>,
}

impl Receiver {
    /// The reference to the list at `target` itself.
    pub fn list(target: Handle) -> (receiver: Receiver)
        ensures
            receiver == (Receiver { target, item: None }),
    {
        Receiver { target, item: None }
    }

    /// The reference to the entry at position `item` of the list at `target`.
    pub fn entry(target: Handle, item: usize) -> (receiver: Receiver)
        ensures
            receiver == (Receiver { target, item: Some(item) }),
    {
        Receiver { target, item: Some(item) }
    }
}

} // verus!
