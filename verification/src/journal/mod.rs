//! The World Journal: stable entity identifiers, portable entity
//! descriptions, journaled actions with undo, and per-world permissions.

pub mod entity_id;
pub mod descriptor;

pub use entity_id::{WorldEntityId, WorldEntityRegistry};
pub use descriptor::{NodeDescriptor, ComponentData};
pub mod action;
pub use action::{ActionRecord, ActionPayload};
pub mod world;
pub use world::{WorldRoot, LocalRoot, WorldJournal, WorldPermissions, WorldRole, SavePolicy};
pub mod save_load;
pub use save_load::{SaveLoadError, identifier_for_save, should_skip_component};
pub mod apply;
pub use apply::{ApplyError, PriorState, resolve_entity, parent_for_undo, applied_payload, field_path_segments};
pub mod plugin;
pub use plugin::{JournalActionQueue, JournalUndoRedoQueue, UndoRedoKeys};
