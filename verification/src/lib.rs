//! The core of a 2D game editor: the scenes of a project with their entities,
//! attributes and resources; the runtime that plays a copy of them; and the
//! decisions that the panels of the editor make. Everything here is verified
//! with Verus. Drawing, files and the subsystems of the game live outside and
//! are driven through the values that these functions take and return.

pub mod attribute;
pub mod engine_gui;
pub mod entity;
pub mod error;
pub mod game_runtime;
pub mod gui;
pub mod handle;
pub mod keyed;
pub mod laws;
pub mod listing;
pub mod predefined;
pub mod project;
pub mod scene;
pub mod scene_manager;
pub mod text;
