//! A debug inspector for a physics simulation.
//!
//! The inspector tracks which rigid body and which collider a developer has
//! selected, enumerates the engine's debug-render flags as checkbox rows, and
//! describes an object browser over a plain-value snapshot of the engine's
//! bodies and colliders: a list of selectable bodies, a read-only stats panel
//! with every scalar rendered to one decimal place, and a properties panel
//! whose edits are clamped before they are handed back to the engine.
//!
//! Scalars are carried as signed thousandths so that the selection logic,
//! the clamping and the formatting are exact; the surrounding application
//! converts the engine's native values at the boundary.

pub mod flags;
pub mod handles;
pub mod inspector;
pub mod scalar;
pub mod view;
pub mod world;

pub use flags::FlagRow;
pub use handles::BodyHandle;
pub use handles::ColliderHandle;
pub use inspector::Inspector;
pub use inspector::SelectionState;
pub use inspector::FRICTION_MAX_MILLI;
pub use inspector::FRICTION_MIN_MILLI;
pub use inspector::MASS_MAX_MILLI;
pub use inspector::MASS_MIN_MILLI;
pub use inspector::RESTITUTION_MAX_MILLI;
pub use inspector::RESTITUTION_MIN_MILLI;
pub use scalar::FormattedVec3;
pub use scalar::Vec3Milli;
pub use view::BrowserView;
pub use view::EngineCommand;
pub use view::PropertyEdit;
pub use world::BodySnapshot;
pub use world::ColliderSnapshot;
pub use world::WorldSnapshot;
