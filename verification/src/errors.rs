//! Failures of the hot-reload runtime.

use vstd::prelude::*;

verus! {

/// Everything that can go wrong while loading, watching or reloading a
/// module.
///
/// `LoadFailure`, `MissingEntrySymbol` and `MissingExport` abort only the
/// reload attempt in which they arise; the module manager reports them and
/// the next tick retries.  `WatchSetupFailure` is fatal when a module is
/// constructed, as a module whose artifact cannot be watched can never hot
/// reload.  `IoFailure` is fatal during construction and a plain
/// reload-attempt failure afterwards.
#[derive(Debug, Clone, PartialEq, Eq)]
pub enum Error {
    /// The compiled unit could not be opened or mapped.
    LoadFailure,
    /// The unit lacks the well-known lifecycle-table symbol.
    MissingEntrySymbol,
    /// A declared export was not found in an otherwise loadable unit.
    MissingExport(String),
    /// A filesystem-change subscription could not be established.
    WatchSetupFailure,
    /// Path resolution or another filesystem interaction failed.
    IoFailure,
}

impl Error {
    /// A short description of the failure, for reporting.
    pub fn describe(&self) -> (r: &'static str)
        ensures
            r@.len() > 0,
    {
        let msg = match self {
            Error::LoadFailure => "failed to open the compiled unit",
            Error::MissingEntrySymbol => "the unit lacks the lifecycle-table symbol",
            Error::MissingExport(_) => "a declared export is missing from the unit",
            Error::WatchSetupFailure => "failed to subscribe to filesystem changes",
            Error::IoFailure => "a filesystem interaction failed",
        };
        proof {
            reveal_strlit("failed to open the compiled unit");
            reveal_strlit("the unit lacks the lifecycle-table symbol");
            reveal_strlit("a declared export is missing from the unit");
            reveal_strlit("failed to subscribe to filesystem changes");
            reveal_strlit("a filesystem interaction failed");
        }
        msg
    }
}

} // verus!
