//! One hot-reloadable module: its state buffer, its change subscription,
//! and, while a unit is loaded, the unit itself.
//!
//! The module is a small state machine.  It is `Unloaded` when no unit is
//! held (the state buffer may still hold prior data) and `Loaded` when a
//! unit is resident.  Construction loads once to size and initialize the
//! state, then deliberately drops that unit again: the caller obtains a
//! usable exports table only from the first reload.  A reload that fails
//! keeps the module safe: a load failure leaves it `Unloaded` with its
//! state bytes kept, and a missing declared export leaves it exactly as it
//! was.

use vstd::prelude::*;

use crate::errors::Error;
use crate::exports::ExportDecl;
use crate::exports::ExportsTable;
use crate::exports::resolve_exports;
use crate::exports::table_matches_decls;
use crate::host::Host;
use crate::lifecycle::Loader;
use crate::lifecycle::ModuleAPI;
use crate::notify_source::NotifyEventSource;
use crate::notify_source::canonical_path;
use crate::state_buffer::StateBuffer;
use crate::state_buffer::padded_len;
use crate::watcher::ChangeWatcher;
use crate::watcher::EventSource;

verus! {

/// The debounce window for filesystem notifications, in seconds.
pub const DEBOUNCE_SECS: u64 = 1;

/// The directory part of a path: everything before the last separator.
pub fn parent_dir(path: &str) -> (r: Option<String>)
    ensures
        match r {
            Some(d) => exists|i: int|
                {
                    &&& 0 <= i < path@.len()
                    &&& path@[i] == '/'
                    &&& d@ == path@.subrange(0, i)
                    &&& forall|j: int| i < j < path@.len() ==> path@[j] != '/'
                },
            None => forall|i: int| 0 <= i < path@.len() ==> path@[i] != '/',
        },
{
    let n = path.unicode_len();
    let mut i = n;
    while i > 0
        invariant
            i <= n == path@.len(),
            forall|j: int| i <= j < n ==> path@[j] != '/',
        decreases i,
    {
        i = i - 1;
        if path.get_char(i) == '/' {
            let d: String = path.substring_char(0, i).to_owned();
            assert(d@ == path@.subrange(0, i as int));
            return Some(d);
        }
    }
    None
}

/// One independently compiled, hot-reloadable code unit under the host's
/// management.
pub struct Module<L: Loader, S: EventSource> {
    /// The artifact path this module loads from.
    pub path: String,
    /// The exports this module's kind declares.
    pub decls: Vec<ExportDecl>,
    /// The currently loaded unit, present only between a successful reload
    /// and the next unload.
    pub symbols: Option<L::Unit>,
    /// The module's opaque state, owned here so it survives reloads.
    pub state: StateBuffer,
    /// The change subscription bound to this module for its lifetime.
    pub watcher: ChangeWatcher<S>,
    /// Ghost count of one-time `init` calls this module has issued.
    pub init_calls: Ghost<nat>,
    /// Ghost count of final `deinit` calls this module has issued.
    pub deinit_calls: Ghost<nat>,
    /// Ghost count of loads that succeeded, construction included.
    pub loads: Ghost<nat>,
    /// The state size a loaded unit most recently reported.
    pub last_size: Ghost<nat>,
}

impl<L: Loader, S: EventSource> Module<L, S> {
    /// The artifact path this module loads from.
    pub open spec fn spec_path(&self) -> Seq<char> {
        self.path@
    }

    /// The exports this module's kind declares.
    pub open spec fn spec_decls(&self) -> Seq<ExportDecl> {
        self.decls@
    }

    /// How many times this module has run a unit's one-time `init`.
    pub open spec fn spec_init_calls(&self) -> nat {
        self.init_calls@
    }

    /// How many times this module has run a unit's final `deinit`.
    pub open spec fn spec_deinit_calls(&self) -> nat {
        self.deinit_calls@
    }

    /// How many loads have succeeded over this module's life, the
    /// construction-time load included.
    pub open spec fn spec_loads(&self) -> nat {
        self.loads@
    }

    /// The state size most recently reported by a loaded unit.
    pub open spec fn spec_last_size(&self) -> nat {
        self.last_size@
    }

    /// The module's lifetime discipline and data-model invariant: `init`
    /// ran exactly once, `deinit` at most once and never while a unit is
    /// still held, at least one load has succeeded, and the state buffer is
    /// sized to the most recently reported state size.
    pub open spec fn wf(&self) -> bool {
        &&& self.init_calls@ == 1
        &&& self.deinit_calls@ <= 1
        &&& self.loads@ >= 1
        &&& (self.symbols is Some ==> self.deinit_calls@ == 0)
        &&& self.last_size@ <= usize::MAX - 7
        &&& self.state@.len() == padded_len(self.last_size@ as int)
    }

    /// Builds the module around an already established change subscription:
    /// load the unit once, size the state block to what the unit reports,
    /// run its one-time `init` — and then let the unit go again, so the
    /// module starts `Unloaded` and the first reload publishes exports.
    pub fn new(path: String, decls: Vec<ExportDecl>, loader: &mut L, watcher: ChangeWatcher<S>)
        -> (r: Result<Module<L, S>, Error>)
        ensures
            r matches Ok(m) ==> {
                &&& m.wf()
                &&& m.symbols is None
                &&& m.spec_init_calls() == 1
                &&& m.spec_deinit_calls() == 0
                &&& m.spec_loads() == 1
                &&& m.spec_path() == path@
                &&& m.spec_decls() == decls@
            },
            r matches Err(e) ==> e is LoadFailure || e is MissingEntrySymbol || e is IoFailure,
    {
        let unit = match loader.load(path.as_str()) {
            Ok(u) => u,
            Err(e) => {
                return Err(e);
            },
        };
        let size = unit.size();
        if size > usize::MAX - 7 {
            // a unit claiming a state size beyond the address space cannot
            // be honoured; treat it as a failed load
            return Err(Error::LoadFailure);
        }
        let mut state = StateBuffer::new();
        state.resize(size);
        proof {
            crate::state_buffer::lemma_padded_len(size as int);
        }
        unit.init(&mut state);
        // the unit is dropped here: the initial load does not retain its
        // symbol table, only later reloads keep one resident
        Ok(
            Module {
                path,
                decls,
                symbols: None,
                state,
                watcher,
                init_calls: Ghost(1),
                deinit_calls: Ghost(0),
                loads: Ghost(1),
                last_size: Ghost(size as nat),
            },
        )
    }

    /// One reload attempt, unconditionally: load the current on-disk
    /// artifact, resolve the declared exports against it, and only then
    /// commit — unload and discard the old unit, resize the state block to
    /// the new unit's reported size, run the unit's `reload`, and retain
    /// the unit.  A failed load leaves the module `Unloaded` with its state
    /// bytes kept; a missing declared export leaves the module exactly in
    /// its prior state.
    pub fn do_reload(&mut self, loader: &mut L) -> (r: Result<ExportsTable, Error>)
        requires
            old(self).wf(),
            old(self).spec_deinit_calls() == 0,
        ensures
            final(self).wf(),
            final(self).spec_path() == old(self).spec_path(),
            final(self).spec_decls() == old(self).spec_decls(),
            final(self).spec_init_calls() == old(self).spec_init_calls(),
            final(self).spec_deinit_calls() == old(self).spec_deinit_calls(),
            r matches Ok(t) ==> {
                &&& final(self).symbols is Some
                &&& table_matches_decls(t@, old(self).spec_decls())
                &&& final(self).spec_loads() == old(self).spec_loads() + 1
                &&& final(self).state@.len() == padded_len(final(self).spec_last_size() as int)
            },
            r is Err ==> final(self).spec_loads() == old(self).spec_loads(),
            r matches Err(e) && e is MissingExport ==> *final(self) == *old(self),
            r matches Err(e) && !(e is MissingExport) ==> {
                &&& final(self).symbols is None
                &&& final(self).state@.len() == old(self).state@.len()
                &&& (old(self).symbols is None ==> final(self).state == old(self).state)
            },
            r matches Err(e) ==> e is LoadFailure || e is MissingEntrySymbol || e is IoFailure
                || e is MissingExport,
    {
        // load the fresh artifact first: a unit that cannot even be opened
        // leaves the module unloaded, after the old unit's own cleanup ran
        let unit = match loader.load(self.path.as_str()) {
            Ok(u) => u,
            Err(e) => {
                match &self.symbols {
                    Some(old_unit) => {
                        old_unit.unload(&mut self.state);
                    },
                    None => {},
                }
                self.symbols = None;
                return Err(e);
            },
        };
        // resolve the declared exports before touching any prior state: a
        // missing export is fatal for this attempt and for nothing else
        let table = match resolve_exports(&unit, &self.decls) {
            Ok(t) => t,
            Err(e) => {
                return Err(e);
            },
        };
        let size = unit.size();
        if size > usize::MAX - 7 {
            // a unit claiming a state size beyond the address space cannot
            // be honoured; treat it as a failed load
            match &self.symbols {
                Some(old_unit) => {
                    old_unit.unload(&mut self.state);
                },
                None => {},
            }
            self.symbols = None;
            return Err(Error::LoadFailure);
        }
        // commit: module-defined cleanup of the outgoing unit, then swap
        match &self.symbols {
            Some(old_unit) => {
                old_unit.unload(&mut self.state);
            },
            None => {},
        }
        self.state.resize(size);
        proof {
            crate::state_buffer::lemma_padded_len(size as int);
        }
        self.last_size = Ghost(size as nat);
        unit.reload(&mut self.state);
        self.symbols = Some(unit);
        self.loads = Ghost(self.loads@ + 1);
        Ok(table)
    }

    /// One reload attempt, gated on whether a change is due: reload when
    /// the caller's change signal fired or no unit is currently held, and
    /// otherwise report "no change" without touching anything.
    pub fn reload_due(&mut self, due_change: bool, loader: &mut L) -> (r: Result<
        Option<ExportsTable>,
        Error,
    >)
        requires
            old(self).wf(),
            old(self).spec_deinit_calls() == 0,
        ensures
            final(self).wf(),
            final(self).spec_path() == old(self).spec_path(),
            final(self).spec_decls() == old(self).spec_decls(),
            final(self).spec_init_calls() == old(self).spec_init_calls(),
            final(self).spec_deinit_calls() == old(self).spec_deinit_calls(),
            !due_change && old(self).symbols is Some ==> r == Ok::<
                Option<ExportsTable>,
                Error,
            >(None) && *final(self) == *old(self),
            r matches Ok(Some(t)) ==> {
                &&& final(self).symbols is Some
                &&& table_matches_decls(t@, old(self).spec_decls())
                &&& final(self).spec_loads() == old(self).spec_loads() + 1
            },
            r matches Ok(None) ==> *final(self) == *old(self) && old(self).symbols is Some
                && !due_change,
            r is Err ==> final(self).spec_loads() == old(self).spec_loads(),
            r matches Err(e) && e is MissingExport ==> *final(self) == *old(self),
            r matches Err(e) && !(e is MissingExport) ==> {
                &&& final(self).symbols is None
                &&& final(self).state@.len() == old(self).state@.len()
            },
            r matches Err(e) ==> e is LoadFailure || e is MissingEntrySymbol || e is IoFailure
                || e is MissingExport,
    {
        if due_change || self.symbols.is_none() {
            match self.do_reload(loader) {
                Ok(t) => Ok(Some(t)),
                Err(e) => Err(e),
            }
        } else {
            Ok(None)
        }
    }

    /// Polls the change watcher and reloads when the artifact changed since
    /// the last poll or no unit is currently held.  Returns the fresh
    /// exports table when a reload ran, `None` when no change was due — in
    /// which case the module itself is untouched — and the failure
    /// otherwise, with the module left in its last safe state.
    pub fn reload(&mut self, loader: &mut L) -> (r: Result<Option<ExportsTable>, Error>)
        requires
            old(self).wf(),
            old(self).spec_deinit_calls() == 0,
        ensures
            final(self).wf(),
            final(self).spec_path() == old(self).spec_path(),
            final(self).spec_decls() == old(self).spec_decls(),
            final(self).spec_init_calls() == old(self).spec_init_calls(),
            final(self).spec_deinit_calls() == old(self).spec_deinit_calls(),
            r matches Ok(Some(t)) ==> {
                &&& final(self).symbols is Some
                &&& table_matches_decls(t@, old(self).spec_decls())
                &&& final(self).spec_loads() == old(self).spec_loads() + 1
            },
            r matches Ok(None) ==> {
                &&& final(self).symbols == old(self).symbols
                &&& final(self).state == old(self).state
                &&& final(self).spec_loads() == old(self).spec_loads()
                &&& old(self).symbols is Some
            },
            r is Err ==> final(self).spec_loads() == old(self).spec_loads(),
            r matches Err(e) && e is MissingExport ==> final(self).symbols == old(self).symbols
                && final(self).state == old(self).state,
            r matches Err(e) ==> final(self).state@.len() == old(self).state@.len(),
            r matches Err(e) ==> e is LoadFailure || e is MissingEntrySymbol || e is IoFailure
                || e is MissingExport,
    {
        let due_change = match self.watcher.poll() {
            Ok(b) => b,
            Err(e) => {
                return Err(e);
            },
        };
        self.reload_due(due_change, loader)
    }

    /// Lets the loaded unit, if any, observe the current host registry.
    pub fn update(&mut self, host: &Host)
        requires
            old(self).wf(),
            old(self).spec_deinit_calls() == 0,
        ensures
            final(self).wf(),
            final(self).symbols == old(self).symbols,
            final(self).state@.len() == old(self).state@.len(),
            final(self).spec_path() == old(self).spec_path(),
            final(self).spec_decls() == old(self).spec_decls(),
            final(self).spec_init_calls() == old(self).spec_init_calls(),
            final(self).spec_deinit_calls() == old(self).spec_deinit_calls(),
            final(self).spec_loads() == old(self).spec_loads(),
            old(self).symbols is None ==> *final(self) == *old(self),
    {
        match &self.symbols {
            Some(unit) => {
                unit.update(host, &mut self.state);
            },
            None => {},
        }
    }

    /// Final teardown: run the held unit's `deinit` once and release the
    /// unit.  A module that holds no unit is left untouched.
    pub fn teardown(&mut self)
        requires
            old(self).wf(),
        ensures
            final(self).wf(),
            final(self).symbols is None,
            final(self).spec_path() == old(self).spec_path(),
            final(self).spec_decls() == old(self).spec_decls(),
            final(self).spec_init_calls() == old(self).spec_init_calls(),
            final(self).spec_loads() == old(self).spec_loads(),
            final(self).spec_last_size() == old(self).spec_last_size(),
            final(self).state@.len() == old(self).state@.len(),
            final(self).spec_deinit_calls() <= 1,
            old(self).symbols is Some ==> final(self).spec_deinit_calls() == old(self).spec_deinit_calls() + 1,
            old(self).symbols is None ==> *final(self) == *old(self),
    {
        match &self.symbols {
            Some(unit) => {
                unit.deinit(&mut self.state);
            },
            None => {
                return ;
            },
        }
        self.symbols = None;
        self.deinit_calls = Ghost(self.deinit_calls@ + 1);
    }
}

impl<L: Loader> Module<L, NotifyEventSource> {
    /// Builds a module that watches the directory holding its artifact,
    /// with the standard debounce window.  Failing to resolve the artifact
    /// path or to establish the watch is fatal: such a module could never
    /// hot reload.
    pub fn from_path(path: &str, decls: Vec<ExportDecl>, loader: &mut L) -> (r: Result<
        Module<L, NotifyEventSource>,
        Error,
    >)
        ensures
            r matches Ok(m) ==> {
                &&& m.wf()
                &&& m.symbols is None
                &&& m.spec_init_calls() == 1
                &&& m.spec_deinit_calls() == 0
                &&& m.spec_path() == path@
                &&& m.spec_decls() == decls@
            },
            r matches Err(e) ==> e is LoadFailure || e is MissingEntrySymbol || e is IoFailure
                || e is WatchSetupFailure,
    {
        let canonical = match canonical_path(path) {
            Ok(c) => c,
            Err(e) => {
                return Err(e);
            },
        };
        let dir = match parent_dir(path) {
            Some(d) => d,
            None => {
                return Err(Error::WatchSetupFailure);
            },
        };
        let source = match NotifyEventSource::subscribe(dir.as_str(), DEBOUNCE_SECS) {
            Ok(s) => s,
            Err(e) => {
                return Err(e);
            },
        };
        let watcher = ChangeWatcher::new(source, canonical);
        Module::new(path.to_owned(), decls, loader, watcher)
    }
}

/// The lifecycle discipline every well-formed module obeys: its unit
/// initialization ran exactly once over the module's life, its unit
/// deinitialization at most once, and only once at least one load had
/// succeeded; and the state block always covers the size a unit most
/// recently reported.
pub proof fn lemma_lifecycle_discipline<L: Loader, S: EventSource>(m: &Module<L, S>)
    requires
        m.wf(),
    ensures
        m.spec_init_calls() == 1,
        m.spec_deinit_calls() <= 1,
        m.spec_deinit_calls() == 1 ==> m.spec_loads() >= 1,
        m.spec_last_size() <= m.state@.len(),
{
    crate::state_buffer::lemma_padded_len(m.spec_last_size() as int);
}

} // verus!
