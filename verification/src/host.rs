//! The host registry: the process-wide record of every module's current
//! exports.
//!
//! One optional slot per declared module kind, empty until that module's
//! first successful reload.  Each slot is written only on the owning
//! module's successful reload and read by every module's `update` call.

use vstd::prelude::*;

use crate::exports::ExportsTable;

verus! {

/// The registry shared with every module during `update`.
#[derive(Debug)]
pub struct Host {
    /// The game module's current exports, once it has reloaded successfully.
    pub libgame: Option<ExportsTable>,
    /// The engine module's current exports, once it has reloaded
    /// successfully.
    pub libengine: Option<ExportsTable>,
}

impl Default for Host {
    /// The registry starts fully empty.
    fn default() -> (r: Host)
        ensures
            r.libgame is None,
            r.libengine is None,
    {
        Host { libgame: None, libengine: None }
    }
}

} // verus!
