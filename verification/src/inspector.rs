//! The inspector.
//!
//! Holds the current selection (an optional body handle and an optional
//! collider handle), renders the debug-flag checkboxes as rows, and describes
//! the object browser for a snapshot of the engine's state. A selection whose
//! object is no longer in the snapshot is treated as no longer valid and
//! cleared, never dereferenced.

use vstd::prelude::*;

use crate::flags::FlagRow;
use crate::flags::debug_render_all_bits;
use crate::flags::defined_flag_bits;
use crate::flags::flag_rows;
use crate::flags::flag_rows_match;
use crate::handles::BodyHandle;
use crate::handles::ColliderHandle;
use crate::handles::is_selected_body;
use crate::handles::is_selected_collider;
use crate::scalar::clamp_milli;
use crate::scalar::clamped;
use crate::scalar::format_one_decimal;
use crate::scalar::format_vec3;
use crate::view::BodyEntry;
use crate::view::BodyPanel;
use crate::view::BrowserView;
use crate::view::ColliderEntry;
use crate::view::EngineCommand;
use crate::view::PropertiesPanel;
use crate::view::PropertyEdit;
use crate::view::StatsPanel;
use crate::view::body_panel_match;
use crate::view::properties_match;
use crate::world::WorldSnapshot;
use crate::world::body_first_at;
use crate::world::collider_first_at;

verus! {

/// Lower bound of an edited mass, in thousandths.
pub const MASS_MIN_MILLI: i64 = 0;

/// Upper bound of an edited mass, in thousandths (one million units).
pub const MASS_MAX_MILLI: i64 = 1000000000;

/// Lower bound of an edited friction coefficient, in thousandths.
pub const FRICTION_MIN_MILLI: i64 = 0;

/// Upper bound of an edited friction coefficient, in thousandths (two units).
pub const FRICTION_MAX_MILLI: i64 = 2000;

/// Lower bound of an edited restitution coefficient, in thousandths.
pub const RESTITUTION_MIN_MILLI: i64 = 0;

/// Upper bound of an edited restitution coefficient, in thousandths (one
/// unit).
pub const RESTITUTION_MAX_MILLI: i64 = 1000;

/// What the inspector currently has selected.
#[derive(Clone, Copy, PartialEq, Eq, Structural, Debug)]
pub enum SelectionState {
    NoneSelected,
    BodySelected,
    BodyAndColliderSelected,
}

/// The inspector's state: the currently selected rigid body and collider,
/// each an optional lookup key into the engine's storage.
pub struct Inspector {
    selected_rigid_body: Option<BodyHandle>,
    selected_collider: Option<ColliderHandle>,
}

impl Inspector {
    /// The selected rigid body, if any.
    pub closed spec fn body_sel(self) -> Option<BodyHandle> {
        self.selected_rigid_body
    }

    /// The selected collider, if any.
    pub closed spec fn collider_sel(self) -> Option<ColliderHandle> {
        self.selected_collider
    }

    /// A collider is only ever selected while a body is.
    pub open spec fn wf(self) -> bool {
        self.collider_sel() is Some ==> self.body_sel() is Some
    }

    /// The selection state the two optional handles encode.
    pub open spec fn spec_selection_state(self) -> SelectionState {
        if self.body_sel() is None {
            SelectionState::NoneSelected
        } else if self.collider_sel() is None {
            SelectionState::BodySelected
        } else {
            SelectionState::BodyAndColliderSelected
        }
    }

    /// The body selection once a handle missing from `w` is cleared.
    pub open spec fn cleaned_body(self, w: WorldSnapshot) -> Option<BodyHandle> {
        match self.body_sel() {
            Some(h) => if w.has_body(h) {
                Some(h)
            } else {
                None
            },
            None => None,
        }
    }

    /// The collider selection once stale handles are cleared: it is dropped
    /// with the body selection, and dropped when the collider itself is
    /// missing from `w`.
    pub open spec fn cleaned_collider(self, w: WorldSnapshot) -> Option<ColliderHandle> {
        if self.cleaned_body(w) is None {
            None
        } else {
            match self.collider_sel() {
                Some(c) => if w.has_collider(c) {
                    Some(c)
                } else {
                    None
                },
                None => None,
            }
        }
    }

    /// Create a new inspector with nothing selected.
    pub fn new() -> (r: Inspector)
        ensures
            r.body_sel() is None,
            r.collider_sel() is None,
            r.spec_selection_state() == SelectionState::NoneSelected,
            r.wf(),
    {
        Inspector { selected_rigid_body: None, selected_collider: None }
    }

    /// Reset all selections: whatever was selected, nothing is afterwards.
    pub fn reset_selection(&mut self)
        ensures
            final(self).body_sel() is None,
            final(self).collider_sel() is None,
            final(self).spec_selection_state() == SelectionState::NoneSelected,
            final(self).wf(),
    {
        self.selected_rigid_body = None;
        self.selected_collider = None;
    }

    /// Select the rigid body `h`, leaving the collider selection as it was.
    pub fn select_body(&mut self, h: BodyHandle)
        requires
            old(self).wf(),
        ensures
            final(self).body_sel() == Some(h),
            final(self).collider_sel() == old(self).collider_sel(),
            final(self).wf(),
            old(self).spec_selection_state() == SelectionState::NoneSelected
                ==> final(self).spec_selection_state() == SelectionState::BodySelected,
    {
        self.selected_rigid_body = Some(h);
    }

    /// Select the collider `c` of the selected body.
    pub fn select_collider(&mut self, c: ColliderHandle)
        requires
            old(self).body_sel() is Some,
        ensures
            final(self).body_sel() == old(self).body_sel(),
            final(self).collider_sel() == Some(c),
            final(self).spec_selection_state() == SelectionState::BodyAndColliderSelected,
            final(self).wf(),
    {
        self.selected_collider = Some(c);
    }

    /// The current selection state.
    pub fn selection_state(&self) -> (s: SelectionState)
        ensures
            s == self.spec_selection_state(),
    {
        if self.selected_rigid_body.is_none() {
            SelectionState::NoneSelected
        } else if self.selected_collider.is_none() {
            SelectionState::BodySelected
        } else {
            SelectionState::BodyAndColliderSelected
        }
    }

    /// The selected rigid body, if any.
    pub fn selected_body_handle(&self) -> (r: Option<BodyHandle>)
        ensures
            r == self.body_sel(),
    {
        self.selected_rigid_body
    }

    /// The selected collider, if any.
    pub fn selected_collider_handle(&self) -> (r: Option<ColliderHandle>)
        ensures
            r == self.collider_sel(),
    {
        self.selected_collider
    }

    /// One checkbox row per defined debug-render flag, in ascending bit
    /// order, checked exactly where `mode` has the flag's bit set.
    pub fn populate_debug_render(&self, mode: u32) -> (rows: Vec<FlagRow>)
        ensures
            flag_rows_match(rows@, defined_flag_bits(), mode),
    {
        let all = debug_render_all_bits();
        flag_rows(all, mode)
    }

    /// Describe the object browser for one frame over the snapshot `world`:
    /// clear any selection whose object is gone, list every body, and detail
    /// the selected body and collider.
    pub fn populate_objects(&mut self, world: &WorldSnapshot) -> (view: BrowserView)
        requires
            old(self).wf(),
            world.wf(),
        ensures
            final(self).wf(),
            final(self).body_sel() == old(self).cleaned_body(*world),
            final(self).collider_sel() == old(self).cleaned_collider(*world),
            view.bodies@.len() == world.bodies@.len(),
            forall|i: int|
                0 <= i < view.bodies@.len() ==> {
                    let e = #[trigger] view.bodies@[i];
                    &&& e.handle == world.bodies@[i].handle
                    &&& e.selected == (final(self).body_sel() == Some(world.bodies@[i].handle))
                },
            view.body_panel is Some <==> final(self).body_sel() is Some,
            view.properties is Some <==> final(self).collider_sel() is Some,
            forall|i: int|
                final(self).body_sel() is Some && #[trigger] body_first_at(
                    *world,
                    final(self).body_sel()->0,
                    i,
                ) ==> body_panel_match(view.body_panel->0, world.bodies@[i], final(self).collider_sel()),
            forall|i: int|
                final(self).collider_sel() is Some && #[trigger] collider_first_at(
                    *world,
                    final(self).collider_sel()->0,
                    i,
                ) ==> properties_match(view.properties->0, world.colliders@[i]),
            old(self).body_sel() is None ==> view.body_panel is None && view.properties is None,
    {
        // Clear a selection whose object has been removed from the engine.
        let body_found: Option<usize> = match &self.selected_rigid_body {
            Some(h) => world.find_body(*h),
            None => None,
        };
        if self.selected_rigid_body.is_some() && body_found.is_none() {
            self.selected_rigid_body = None;
            self.selected_collider = None;
        }
        let coll_found: Option<usize> = match &self.selected_collider {
            Some(c) => world.find_collider(*c),
            None => None,
        };
        if self.selected_collider.is_some() && coll_found.is_none() {
            self.selected_collider = None;
        }
        // The selectable list: one entry per body, in the snapshot's order.
        let mut entries: Vec<BodyEntry> = Vec::new();
        let mut i: usize = 0;
        while i < world.bodies.len()
            invariant
                i <= world.bodies@.len(),
                entries@.len() == i,
                forall|k: int|
                    0 <= k < i ==> {
                        let e = #[trigger] entries@[k];
                        &&& e.handle == world.bodies@[k].handle
                        &&& e.selected == (self.body_sel() == Some(world.bodies@[k].handle))
                    },
                self.body_sel() == old(self).cleaned_body(*world),
                self.collider_sel() == old(self).cleaned_collider(*world),
            decreases world.bodies@.len() - i,
        {
            let h = world.bodies[i].handle;
            let sel = is_selected_body(&self.selected_rigid_body, h);
            entries.push(BodyEntry { handle: h, selected: sel });
            i = i + 1;
        }

        // The detail panel of the selected body, if one is still selected.
        let mut body_panel: Option<BodyPanel> = None;
        if self.selected_rigid_body.is_some() {
            match body_found {
                Some(bi) => {
                    let b = &world.bodies[bi];
                    let stats = StatsPanel {
                        position: format_vec3(&b.translation),
                        linear_velocity: format_vec3(&b.linear_velocity),
                        linear_damping: format_one_decimal(b.linear_damping),
                        angular_velocity: format_vec3(&b.angular_velocity),
                        angular_damping: format_one_decimal(b.angular_damping),
                        kinetic_energy: format_one_decimal(b.kinetic_energy),
                    };
                    let mut centries: Vec<ColliderEntry> = Vec::new();
                    let mut k: usize = 0;
                    while k < b.colliders.len()
                        invariant
                            k <= b.colliders@.len(),
                            centries@.len() == k,
                            forall|m: int|
                                0 <= m < k ==> {
                                    let e = #[trigger] centries@[m];
                                    &&& e.handle == b.colliders@[m]
                                    &&& e.selected == (self.collider_sel() == Some(
                                        b.colliders@[m],
                                    ))
                                },
                            self.collider_sel() == old(self).cleaned_collider(*world),
                            self.body_sel() == old(self).cleaned_body(*world),
                        decreases b.colliders@.len() - k,
                    {
                        let ch = b.colliders[k];
                        let sel = is_selected_collider(&self.selected_collider, ch);
                        centries.push(ColliderEntry { handle: ch, selected: sel });
                        k = k + 1;
                    }
                    body_panel = Some(BodyPanel { stats, colliders: centries });
                },
                None => {
                    proof {
                        assert(false);
                    }
                },
            }
        }

        // The editable properties of the selected collider, if one is still
        // selected.
        let mut properties: Option<PropertiesPanel> = None;
        if self.selected_collider.is_some() {
            match coll_found {
                Some(ci) => {
                    let c = &world.colliders[ci];
                    properties = Some(
                        PropertiesPanel {
                            collider: c.handle,
                            mass_milli: c.mass,
                            friction_milli: c.friction,
                            restitution_milli: c.restitution,
                        },
                    );
                },
                None => {
                    proof {
                        assert(false);
                    }
                },
            }
        }

        let view = BrowserView { bodies: entries, body_panel, properties };
        proof {
            if self.body_sel() is Some {
                let bi = body_found->0 as int;
                assert forall|i2: int|
                    self.body_sel() is Some && #[trigger] body_first_at(
                        *world,
                        self.body_sel()->0,
                        i2,
                    ) implies body_panel_match(
                    view.body_panel->0,
                    world.bodies@[i2],
                    self.collider_sel(),
                ) by {
                    assert(i2 == bi);
                }
            }
            if self.collider_sel() is Some {
                let ci = coll_found->0 as int;
                assert forall|i2: int|
                    self.collider_sel() is Some && #[trigger] collider_first_at(
                        *world,
                        self.collider_sel()->0,
                        i2,
                    ) implies properties_match(view.properties->0, world.colliders@[i2]) by {
                    assert(i2 == ci);
                }
            }
        }
        view
    }

    /// Turn a user edit of the properties panel into the engine write it
    /// commits: the value clamped to the field's range, against the selected
    /// collider. Without a selected collider there is nothing to edit.
    pub fn apply_edit(&self, edit: PropertyEdit) -> (cmd: Option<EngineCommand>)
        ensures
            cmd is Some <==> self.collider_sel() is Some,
            match self.collider_sel() {
                Some(c) => match edit {
                    PropertyEdit::Mass(m) => cmd == Some(
                        EngineCommand::SetMass(c, clamped(m, MASS_MIN_MILLI, MASS_MAX_MILLI)),
                    ),
                    PropertyEdit::Friction(f) => cmd == Some(
                        EngineCommand::SetFriction(
                            c,
                            clamped(f, FRICTION_MIN_MILLI, FRICTION_MAX_MILLI),
                        ),
                    ),
                    PropertyEdit::Restitution(e) => cmd == Some(
                        EngineCommand::SetRestitution(
                            c,
                            clamped(e, RESTITUTION_MIN_MILLI, RESTITUTION_MAX_MILLI),
                        ),
                    ),
                },
                None => cmd is None,
            },
    {
        match self.selected_collider {
            Some(c) => Some(
                match edit {
                    PropertyEdit::Mass(m) => EngineCommand::SetMass(
                        c,
                        clamp_milli(m, MASS_MIN_MILLI, MASS_MAX_MILLI),
                    ),
                    PropertyEdit::Friction(f) => EngineCommand::SetFriction(
                        c,
                        clamp_milli(f, FRICTION_MIN_MILLI, FRICTION_MAX_MILLI),
                    ),
                    PropertyEdit::Restitution(e) => EngineCommand::SetRestitution(
                        c,
                        clamp_milli(e, RESTITUTION_MIN_MILLI, RESTITUTION_MAX_MILLI),
                    ),
                },
            ),
            None => None,
        }
    }
}

} // verus!
