//! A plain-value snapshot of the engine's state.
//!
//! The engine owns the rigid bodies and the colliders; the inspector works on
//! a per-frame snapshot of the fields it reads, every scalar in thousandths.
//! Lookups by handle are fallible: a handle whose object has been removed
//! from the engine is reported as not found, never dereferenced blindly.

use vstd::prelude::*;

use crate::handles::BodyHandle;
use crate::handles::ColliderHandle;
use crate::scalar::Vec3Milli;
use crate::scalar::scalar_ok;

verus! {

/// The fields the inspector reads from one rigid body, scalars in
/// thousandths, and the handles of the colliders the body owns.
pub struct BodySnapshot {
    pub handle: BodyHandle,
    pub translation: Vec3Milli,
    pub linear_velocity: Vec3Milli,
    pub linear_damping: i64,
    pub angular_velocity: Vec3Milli,
    pub angular_damping: i64,
    pub kinetic_energy: i64,
    pub colliders: Vec<ColliderHandle>,
}

/// The fields the inspector reads from one collider, scalars in thousandths.
#[derive(Clone, Copy, PartialEq, Eq, Structural, Debug)]
pub struct ColliderSnapshot {
    pub handle: ColliderHandle,
    pub mass: i64,
    pub friction: i64,
    pub restitution: i64,
}

/// A snapshot of every rigid body and collider the engine holds, in the
/// engine's own iteration order.
pub struct WorldSnapshot {
    pub bodies: Vec<BodySnapshot>,
    pub colliders: Vec<ColliderSnapshot>,
}

impl BodySnapshot {
    /// Every scalar of the snapshot is one the formatter accepts.
    pub open spec fn wf(self) -> bool {
        &&& scalar_ok(self.translation.x)
        &&& scalar_ok(self.translation.y)
        &&& scalar_ok(self.translation.z)
        &&& scalar_ok(self.linear_velocity.x)
        &&& scalar_ok(self.linear_velocity.y)
        &&& scalar_ok(self.linear_velocity.z)
        &&& scalar_ok(self.linear_damping)
        &&& scalar_ok(self.angular_velocity.x)
        &&& scalar_ok(self.angular_velocity.y)
        &&& scalar_ok(self.angular_velocity.z)
        &&& scalar_ok(self.angular_damping)
        &&& scalar_ok(self.kinetic_energy)
    }
}

impl WorldSnapshot {
    /// Every body snapshot is well formed.
    pub open spec fn wf(self) -> bool {
        forall|i: int| 0 <= i < self.bodies@.len() ==> (#[trigger] self.bodies@[i]).wf()
    }

    /// Whether some body in the snapshot carries the handle `h`.
    pub open spec fn has_body(self, h: BodyHandle) -> bool {
        exists|i: int| 0 <= i < self.bodies@.len() && (#[trigger] self.bodies@[i]).handle == h
    }

    /// Whether some collider in the snapshot carries the handle `c`.
    pub open spec fn has_collider(self, c: ColliderHandle) -> bool {
        exists|i: int| 0 <= i < self.colliders@.len() && (#[trigger] self.colliders@[i]).handle == c
    }

    /// Look up the first body with handle `h`, if any.
    pub fn find_body(&self, h: BodyHandle) -> (r: Option<usize>)
        ensures
            match r {
                Some(i) => {
                    &&& i < self.bodies@.len()
                    &&& self.bodies@[i as int].handle == h
                    &&& forall|j: int| 0 <= j < i ==> (#[trigger] self.bodies@[j]).handle != h
                },
                None => !self.has_body(h),
            },
    {
        let mut i: usize = 0;
        while i < self.bodies.len()
            invariant
                i <= self.bodies@.len(),
                forall|j: int| 0 <= j < i ==> (#[trigger] self.bodies@[j]).handle != h,
            decreases self.bodies@.len() - i,
        {
            if self.bodies[i].handle == h {
                return Some(i);
            }
            i = i + 1;
        }
        None
    }

    /// Look up the first collider with handle `c`, if any.
    pub fn find_collider(&self, c: ColliderHandle) -> (r: Option<usize>)
        ensures
            match r {
                Some(i) => {
                    &&& i < self.colliders@.len()
                    &&& self.colliders@[i as int].handle == c
                    &&& forall|j: int| 0 <= j < i ==> (#[trigger] self.colliders@[j]).handle != c
                },
                None => !self.has_collider(c),
            },
    {
        let mut i: usize = 0;
        while i < self.colliders.len()
            invariant
                i <= self.colliders@.len(),
                forall|j: int| 0 <= j < i ==> (#[trigger] self.colliders@[j]).handle != c,
            decreases self.colliders@.len() - i,
        {
            if self.colliders[i].handle == c {
                return Some(i);
            }
            i = i + 1;
        }
        None
    }
}

/// Whether `i` is the position of the first body of `w` carrying handle `h`.
pub open spec fn body_first_at(w: WorldSnapshot, h: BodyHandle, i: int) -> bool {
    &&& 0 <= i < w.bodies@.len()
    &&& w.bodies@[i].handle == h
    &&& forall|j: int| 0 <= j < i ==> (#[trigger] w.bodies@[j]).handle != h
}

/// Whether `i` is the position of the first collider of `w` carrying
/// handle `c`.
pub open spec fn collider_first_at(w: WorldSnapshot, c: ColliderHandle, i: int) -> bool {
    &&& 0 <= i < w.colliders@.len()
    &&& w.colliders@[i].handle == c
    &&& forall|j: int| 0 <= j < i ==> (#[trigger] w.colliders@[j]).handle != c
}

} // verus!
