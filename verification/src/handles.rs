//! Selection handles.
//!
//! A handle is an opaque lookup key (an index and a generation tag) into the
//! engine's own storage. The inspector never owns the referenced object: every
//! dereference is a fallible lookup against a snapshot of the engine's state.

use vstd::prelude::*;

verus! {

/// A lookup key for a rigid body in the engine's body storage.
#[derive(Clone, Copy, PartialEq, Eq, Structural, Debug)]
pub struct BodyHandle {
    pub index: u32,
    pub generation: u32,
}

/// A lookup key for a collider in the engine's collider storage.
#[derive(Clone, Copy, PartialEq, Eq, Structural, Debug)]
pub struct ColliderHandle {
    pub index: u32,
    pub generation: u32,
}

/// Whether `sel` is exactly a selection of `h`.
pub fn is_selected_body(sel: &Option<BodyHandle>, h: BodyHandle) -> (r: bool)
    ensures
        r == (*sel == Some(h)),
{
    match sel {
        Some(s) => *s == h,
        None => false,
    }
}

/// Whether `sel` is exactly a selection of `c`.
pub fn is_selected_collider(sel: &Option<ColliderHandle>, c: ColliderHandle) -> (r: bool)
    ensures
        r == (*sel == Some(c)),
{
    match sel {
        Some(s) => *s == c,
        None => false,
    }
}

} // verus!
