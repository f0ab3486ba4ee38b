//! The contracts at the dynamic-load boundary.
//!
//! Every loadable code unit exposes, under one well-known symbol, a fixed
//! table of lifecycle entry points; [`ModuleAPI`] states that table as a
//! trait for unit implementations to fulfil.  [`Loader`] is the one
//! operation that turns an on-disk artifact into such a unit.

use vstd::prelude::*;

use crate::errors::Error;
use crate::host::Host;
use crate::state_buffer::StateBuffer;

verus! {

/// The lifecycle interface of one loaded code unit.
///
/// The unit receives its state as an opaque block that only its own code
/// may interpret.  At the native boundary the block is handed over as a raw
/// pointer, so a unit can read and write the bytes but can never
/// reallocate the block; every lifecycle call therefore promises to leave
/// the block's length unchanged.  Implementations are not verified — the
/// promises below are the trusted contract every unit must keep.
///
/// Over a unit's life the host calls `init` once right after the very
/// first load, `reload` after each later load (which is also when the
/// unit's exports are resolved), `update` whenever any module's exports
/// changed, `unload` before the unit is discarded in favour of a fresh
/// load, and `deinit` once at teardown.
pub trait ModuleAPI {
    /// How many bytes of state this unit needs.
    fn size(&self) -> usize;

    /// One-time state initialization, on the initial application load.
    fn init(&self, state: &mut StateBuffer)
        ensures
            final(state)@.len() == old(state)@.len(),
    ;

    /// Called on every later load of the unit, before it is used.
    fn reload(&self, state: &mut StateBuffer)
        ensures
            final(state)@.len() == old(state)@.len(),
    ;

    /// Called when any module was reloaded, with the full host registry, so
    /// the unit can pick up freshly published exports.
    fn update(&self, host: &Host, state: &mut StateBuffer)
        ensures
            final(state)@.len() == old(state)@.len(),
    ;

    /// Module-defined cleanup before the unit is discarded; the state block
    /// itself is kept, since continuity across reloads is the point.
    fn unload(&self, state: &mut StateBuffer)
        ensures
            final(state)@.len() == old(state)@.len(),
    ;

    /// Final cleanup when the host shuts down.
    fn deinit(&self, state: &mut StateBuffer)
        ensures
            final(state)@.len() == old(state)@.len(),
    ;

    /// Looks one exported symbol up in the unit's symbol table: a native
    /// function handle when the unit provides the name.
    fn resolve(&self, name: &str) -> Option<u64>;
}

/// Opens the compiled artifact at a filesystem path and resolves its
/// lifecycle table.
///
/// The production implementation maps a dynamic library and keeps it
/// resident for as long as the returned unit lives; on platforms where an
/// in-use file cannot be overwritten it first copies the artifact to a
/// scratch path and loads the copy.  Failures are reported as
/// [`Error::LoadFailure`] when the artifact cannot be opened,
/// [`Error::MissingEntrySymbol`] when the well-known lifecycle symbol is
/// absent, and [`Error::IoFailure`] when a scratch copy or path resolution
/// fails.
pub trait Loader {
    /// The loaded-unit handle this loader produces.
    type Unit: ModuleAPI;

    /// Loads the artifact at `path`.  The promise on the error is the
    /// loader's boundary contract: a loader reports only the three failures
    /// above, never a resolver failure.
    fn load(&mut self, path: &str) -> (r: Result<Self::Unit, Error>)
        ensures
            r matches Err(e) ==> e is LoadFailure || e is MissingEntrySymbol || e is IoFailure,
    ;
}

} // verus!
