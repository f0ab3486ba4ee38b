//! The module manager: owner of the host registry and the fixed, ordered
//! set of modules, and driver of one coordination pass per tick.
//!
//! A pass polls every module for a due reload in declared order and stores
//! each fresh exports table into the registry slot of the module that
//! produced it — no other code path ever writes a slot.  If any module
//! changed, every module's `update` then runs with the new registry, so a
//! module that just reloaded is visible to all modules, itself included,
//! within the same pass; if nothing changed the update wave is skipped.
//! Failed reload attempts are collected and reported, never fatal: the
//! module keeps its last good state and the next tick retries.

use vstd::prelude::*;

use crate::errors::Error;
use crate::exports::table_matches_decls;
use crate::host::Host;
use crate::lifecycle::Loader;
use crate::module::Module;
use crate::watcher::EventSource;

verus! {

/// The host registry and the full set of modules, driven tick by tick.
pub struct ModuleManager<L: Loader, S: EventSource> {
    /// The registry of every module's current exports.
    pub host: Host,
    /// The loader that turns on-disk artifacts into loaded units.
    pub loader: L,
    /// The game module.
    pub libgame: Module<L, S>,
    /// The engine module.
    pub libengine: Module<L, S>,
}

impl<L: Loader, S: EventSource> ModuleManager<L, S> {
    /// Both modules observe their lifecycle discipline and neither has been
    /// torn down.
    pub open spec fn wf(&self) -> bool {
        &&& self.libgame.wf()
        &&& self.libgame.spec_deinit_calls() == 0
        &&& self.libengine.wf()
        &&& self.libengine.spec_deinit_calls() == 0
    }

    /// Assembles the manager around freshly constructed modules.  The
    /// registry starts fully empty: entries appear as modules first reload
    /// successfully.
    pub fn new(loader: L, libgame: Module<L, S>, libengine: Module<L, S>) -> (r: ModuleManager<
        L,
        S,
    >)
        requires
            libgame.wf(),
            libgame.spec_deinit_calls() == 0,
            libengine.wf(),
            libengine.spec_deinit_calls() == 0,
        ensures
            r.wf(),
            r.host.libgame is None,
            r.host.libengine is None,
            r.libgame == libgame,
            r.libengine == libengine,
    {
        ModuleManager { host: Host::default(), loader, libgame, libengine }
    }

    /// One coordination pass: poll both modules for a due reload in the
    /// declared order, publish fresh exports tables into the registry, and,
    /// if anything changed, let every module observe the new registry.
    /// Returns the reload failures of this pass; the affected modules stay
    /// in their last good state and the next pass retries.
    pub fn reload(&mut self) -> (errors: Vec<Error>)
        requires
            old(self).wf(),
        ensures
            final(self).wf(),
            // a registry slot is written only by its own module's successful
            // reload, and then holds a table of that module's declared shape
            final(self).host.libgame == old(self).host.libgame || (final(self).host.libgame
                matches Some(t) && table_matches_decls(t@, old(self).libgame.spec_decls())),
            final(self).host.libengine == old(self).host.libengine || (final(self).host.libengine
                matches Some(t) && table_matches_decls(t@, old(self).libengine.spec_decls())),
            // a pass never re-initializes or tears down a module
            final(self).libgame.spec_init_calls() == old(self).libgame.spec_init_calls(),
            final(self).libengine.spec_init_calls() == old(self).libengine.spec_init_calls(),
            final(self).libgame.spec_decls() == old(self).libgame.spec_decls(),
            final(self).libengine.spec_decls() == old(self).libengine.spec_decls(),
            final(self).libgame.spec_path() == old(self).libgame.spec_path(),
            final(self).libengine.spec_path() == old(self).libengine.spec_path(),
            // when no artifact of a module changed, no reload ran for it and
            // its registry slot is untouched
            final(self).libgame.spec_loads() == old(self).libgame.spec_loads()
                ==> final(self).host.libgame == old(self).host.libgame,
            final(self).libengine.spec_loads() == old(self).libengine.spec_loads()
                ==> final(self).host.libengine == old(self).host.libengine,
            // at most one failure per module per pass
            errors@.len() <= 2,
    {
        let mut errors: Vec<Error> = Vec::new();
        let mut changed = false;
        match self.libgame.reload(&mut self.loader) {
            Ok(Some(t)) => {
                self.host.libgame = Some(t);
                changed = true;
            },
            Ok(None) => {},
            Err(e) => {
                errors.push(e);
            },
        }
        match self.libengine.reload(&mut self.loader) {
            Ok(Some(t)) => {
                self.host.libengine = Some(t);
                changed = true;
            },
            Ok(None) => {},
            Err(e) => {
                errors.push(e);
            },
        }
        if changed {
            self.libgame.update(&self.host);
            self.libengine.update(&self.host);
        }
        errors
    }

    /// Teardown: every module that still holds a unit runs that unit's
    /// `deinit` exactly once and releases it.  The registry is left as it
    /// was; nothing reads it afterwards.
    pub fn teardown(&mut self)
        requires
            old(self).wf(),
        ensures
            final(self).libgame.wf(),
            final(self).libengine.wf(),
            final(self).libgame.symbols is None,
            final(self).libengine.symbols is None,
            old(self).libgame.symbols is Some ==> final(self).libgame.spec_deinit_calls() == 1,
            old(self).libgame.symbols is None ==> final(self).libgame.spec_deinit_calls() == 0,
            old(self).libengine.symbols is Some ==> final(self).libengine.spec_deinit_calls() == 1,
            old(self).libengine.symbols is None ==> final(self).libengine.spec_deinit_calls() == 0,
    {
        self.libgame.teardown();
        self.libengine.teardown();
    }
}

} // verus!
