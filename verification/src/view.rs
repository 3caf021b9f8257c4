//! Render descriptions and engine commands.
//!
//! The inspector does not draw; it describes. A [`BrowserView`] says what the
//! object browser shows for one frame: the selectable body list, the stats
//! panel of the selected body, and the editable properties of the selected
//! collider. Edits come back as a [`PropertyEdit`] and leave, clamped, as an
//! [`EngineCommand`] for the caller to apply to the engine.

use vstd::prelude::*;

use crate::handles::BodyHandle;
use crate::handles::ColliderHandle;
use crate::scalar::FormattedVec3;
use crate::scalar::spec_one_decimal;
use crate::scalar::vec3_formatted;
use crate::world::BodySnapshot;
use crate::world::ColliderSnapshot;

verus! {

/// One selectable entry of the rigid-body list.
pub struct BodyEntry {
    pub handle: BodyHandle,
    pub selected: bool,
}

/// One selectable entry of the selected body's collider list.
pub struct ColliderEntry {
    pub handle: ColliderHandle,
    pub selected: bool,
}

/// The read-only stats of the selected body, each scalar rendered to one
/// decimal place.
pub struct StatsPanel {
    pub position: FormattedVec3,
    pub linear_velocity: FormattedVec3,
    pub linear_damping: String,
    pub angular_velocity: FormattedVec3,
    pub angular_damping: String,
    pub kinetic_energy: String,
}

/// The detail panel of the selected body: its stats and its colliders. The
/// panel also carries the unselect affordance.
pub struct BodyPanel {
    pub stats: StatsPanel,
    pub colliders: Vec<ColliderEntry>,
}

/// The drag-editable properties of the selected collider, in thousandths.
#[derive(Clone, Copy, PartialEq, Eq, Structural, Debug)]
pub struct PropertiesPanel {
    pub collider: ColliderHandle,
    pub mass_milli: i64,
    pub friction_milli: i64,
    pub restitution_milli: i64,
}

/// What the object browser shows for one frame.
pub struct BrowserView {
    pub bodies: Vec<BodyEntry>,
    pub body_panel: Option<BodyPanel>,
    pub properties: Option<PropertiesPanel>,
}

/// One user edit of a properties field, in thousandths.
#[derive(Clone, Copy, PartialEq, Eq, Structural, Debug)]
pub enum PropertyEdit {
    Mass(i64),
    Friction(i64),
    Restitution(i64),
}

/// A write the caller applies to the engine's collider, in thousandths.
#[derive(Clone, Copy, PartialEq, Eq, Structural, Debug)]
pub enum EngineCommand {
    SetMass(ColliderHandle, i64),
    SetFriction(ColliderHandle, i64),
    SetRestitution(ColliderHandle, i64),
}

/// Whether `stats` renders every scalar of `b` to one decimal place.
pub open spec fn stats_match(stats: StatsPanel, b: BodySnapshot) -> bool {
    &&& vec3_formatted(stats.position, b.translation)
    &&& vec3_formatted(stats.linear_velocity, b.linear_velocity)
    &&& stats.linear_damping@ == spec_one_decimal(b.linear_damping as int)
    &&& vec3_formatted(stats.angular_velocity, b.angular_velocity)
    &&& stats.angular_damping@ == spec_one_decimal(b.angular_damping as int)
    &&& stats.kinetic_energy@ == spec_one_decimal(b.kinetic_energy as int)
}

/// Whether `entries` lists exactly the handles of `owned`, in order, marking
/// selected exactly the one equal to `sel`.
pub open spec fn collider_entries_match(
    entries: Seq<ColliderEntry>,
    owned: Seq<ColliderHandle>,
    sel: Option<ColliderHandle>,
) -> bool {
    &&& entries.len() == owned.len()
    &&& forall|k: int|
        0 <= k < owned.len() ==> {
            let e = #[trigger] entries[k];
            &&& e.handle == owned[k]
            &&& e.selected == (sel == Some(owned[k]))
        }
}

/// Whether `panel` describes the body `b` under collider selection `sel`.
pub open spec fn body_panel_match(panel: BodyPanel, b: BodySnapshot, sel: Option<ColliderHandle>) -> bool {
    &&& stats_match(panel.stats, b)
    &&& collider_entries_match(panel.colliders@, b.colliders@, sel)
}

/// Whether `p` shows the current properties of the collider `c`.
pub open spec fn properties_match(p: PropertiesPanel, c: ColliderSnapshot) -> bool {
    &&& p.collider == c.handle
    &&& p.mass_milli == c.mass
    &&& p.friction_milli == c.friction
    &&& p.restitution_milli == c.restitution
}

} // verus!
