//! Hot-reload runtime for independently compiled code units ("modules").
//!
//! A long-running host keeps one [`module::Module`] per code unit.  Each
//! module owns an opaque [`state_buffer::StateBuffer`] that survives
//! reloads, a change-watcher subscription that signals when the compiled
//! artifact on disk was rewritten, and, while a unit is loaded, the unit's
//! lifecycle interface.  A [`manager::ModuleManager`] drives one
//! coordination pass per tick: poll every module for a due reload, publish
//! fresh export tables into the shared [`host::Host`] registry, and, if
//! anything changed, let every module observe the new registry.

pub mod devices;
pub mod editor;
pub mod errors;
pub mod exports;
pub mod extensions;
pub mod host;
pub mod lifecycle;
pub mod manager;
pub mod module;
pub mod notify_source;
pub mod state_buffer;
pub mod vec_ops;
pub mod version;
pub mod vulkan;
pub mod watcher;

pub use crate::errors::Error;
pub use crate::exports::ExportDecl;
pub use crate::exports::ExportsTable;
pub use crate::host::Host;
pub use crate::lifecycle::Loader;
pub use crate::lifecycle::ModuleAPI;
pub use crate::manager::ModuleManager;
pub use crate::module::Module;
pub use crate::state_buffer::StateBuffer;
