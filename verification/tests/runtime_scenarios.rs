//! End-to-end reload scenarios driven by scripted loaders and event
//! sources.

use std::cell::RefCell;
use std::rc::Rc;

use steadfast::errors::Error;
use steadfast::exports::ExportDecl;
use steadfast::host::Host;
use steadfast::lifecycle::Loader;
use steadfast::lifecycle::ModuleAPI;
use steadfast::manager::ModuleManager;
use steadfast::module::Module;
use steadfast::state_buffer::StateBuffer;
use steadfast::watcher::ChangeEvent;
use steadfast::watcher::ChangeWatcher;
use steadfast::watcher::EventSource;

#[derive(Debug, Clone, PartialEq, Eq)]
enum Call {
    Init,
    Reload,
    /// An update, carrying the game handle the unit saw in the registry.
    Update(Option<u64>),
    Unload,
    Deinit,
}

#[derive(Clone)]
struct UnitSpec {
    size: usize,
    exports: Vec<(String, u64)>,
}

struct FakeUnit {
    spec: UnitSpec,
    log: Rc<RefCell<Vec<Call>>>,
}

impl ModuleAPI for FakeUnit {
    fn size(&self) -> usize {
        self.spec.size
    }
    fn init(&self, _state: &mut StateBuffer) {
        self.log.borrow_mut().push(Call::Init);
    }
    fn reload(&self, _state: &mut StateBuffer) {
        self.log.borrow_mut().push(Call::Reload);
    }
    fn update(&self, host: &Host, _state: &mut StateBuffer) {
        let seen = host.libgame.as_ref().and_then(|t| t.get("run"));
        self.log.borrow_mut().push(Call::Update(seen));
    }
    fn unload(&self, _state: &mut StateBuffer) {
        self.log.borrow_mut().push(Call::Unload);
    }
    fn deinit(&self, _state: &mut StateBuffer) {
        self.log.borrow_mut().push(Call::Deinit);
    }
    fn resolve(&self, name: &str) -> Option<u64> {
        self.spec.exports.iter().find(|(n, _)| n == name).map(|(_, h)| *h)
    }
}

/// Serves one scripted outcome per load; once the script is exhausted, the
/// last outcome repeats.
struct FakeLoader {
    script: Vec<Result<UnitSpec, Error>>,
    served: usize,
    log: Rc<RefCell<Vec<Call>>>,
}

impl FakeLoader {
    fn new(script: Vec<Result<UnitSpec, Error>>, log: Rc<RefCell<Vec<Call>>>) -> FakeLoader {
        FakeLoader { script, served: 0, log }
    }
}

impl Loader for FakeLoader {
    type Unit = FakeUnit;
    fn load(&mut self, _path: &str) -> Result<FakeUnit, Error> {
        let idx = self.served.min(self.script.len() - 1);
        self.served += 1;
        match &self.script[idx] {
            Ok(spec) => Ok(FakeUnit { spec: spec.clone(), log: self.log.clone() }),
            Err(e) => Err(e.clone()),
        }
    }
}

struct ScriptedSource {
    pending: Rc<RefCell<Vec<ChangeEvent>>>,
}

impl EventSource for ScriptedSource {
    fn try_next(&mut self) -> Option<ChangeEvent> {
        let mut pending = self.pending.borrow_mut();
        if pending.is_empty() {
            None
        } else {
            Some(pending.remove(0))
        }
    }
}

fn decls(names: &[&str]) -> Vec<ExportDecl> {
    names
        .iter()
        .map(|n| ExportDecl { name: (*n).to_string(), sig: "() -> int".to_string() })
        .collect()
}

fn unit(size: usize, exports: &[(&str, u64)]) -> UnitSpec {
    UnitSpec {
        size,
        exports: exports.iter().map(|(n, h)| ((*n).to_string(), *h)).collect(),
    }
}

struct Rig {
    manager: ModuleManager<FakeLoader, ScriptedSource>,
    game_events: Rc<RefCell<Vec<ChangeEvent>>>,
    log: Rc<RefCell<Vec<Call>>>,
}

/// Builds a manager whose game module ("alpha") declares `run` and whose
/// engine module declares nothing.
fn rig(script: Vec<Result<UnitSpec, Error>>) -> Rig {
    let log = Rc::new(RefCell::new(Vec::new()));
    let mut loader = FakeLoader::new(script, log.clone());
    let game_events = Rc::new(RefCell::new(Vec::new()));
    let game = Module::new(
        "alpha".to_string(),
        decls(&["run"]),
        &mut loader,
        ChangeWatcher::new(ScriptedSource { pending: game_events.clone() }, "alpha".to_string()),
    )
    .unwrap();
    let engine_events = Rc::new(RefCell::new(Vec::new()));
    let engine = Module::new(
        "engine".to_string(),
        decls(&[]),
        &mut loader,
        ChangeWatcher::new(
            ScriptedSource { pending: engine_events.clone() },
            "engine".to_string(),
        ),
    )
    .unwrap();
    let manager = ModuleManager::new(loader, game, engine);
    Rig { manager, game_events, log }
}

fn count(log: &Rc<RefCell<Vec<Call>>>, call: Call) -> usize {
    log.borrow().iter().filter(|c| **c == call).count()
}

fn count_updates(log: &Rc<RefCell<Vec<Call>>>) -> usize {
    log.borrow().iter().filter(|c| matches!(c, Call::Update(_))).count()
}

fn last_update_saw(log: &Rc<RefCell<Vec<Call>>>) -> Option<u64> {
    log.borrow()
        .iter()
        .rev()
        .find_map(|c| if let Call::Update(seen) = c { Some(*seen) } else { None })
        .unwrap()
}

#[test]
fn first_reload_publishes_exports() {
    let mut r = rig(vec![Ok(unit(8, &[("run", 42)]))]);
    assert!(r.manager.host.libgame.is_none());

    let errors = r.manager.reload();
    assert!(errors.is_empty());
    let table = r.manager.host.libgame.as_ref().expect("registry entry set");
    assert_eq!(table.get("run"), Some(42));
    assert!(r.manager.libgame.symbols.is_some());
    // the update wave of the same pass already saw the fresh table
    assert_eq!(count_updates(&r.log), 2);
    assert_eq!(last_update_saw(&r.log), Some(42));
}

#[test]
fn tick_without_change_is_a_no_op() {
    let mut r = rig(vec![Ok(unit(8, &[("run", 42)]))]);
    r.manager.reload();
    let updates_after_first = count_updates(&r.log);
    assert!(updates_after_first > 0, "the first pass publishes and updates");

    // no artifact changed: reload reports no change, the registry entry is
    // untouched and no update wave runs
    let errors = r.manager.reload();
    assert!(errors.is_empty());
    let table = r.manager.host.libgame.as_ref().unwrap();
    assert_eq!(table.get("run"), Some(42));
    assert_eq!(count_updates(&r.log), updates_after_first);
    assert_eq!(count(&r.log, Call::Reload), 2, "one reload per module, first pass only");
}

#[test]
fn rebuild_triggers_unload_reload_and_replaces_the_table() {
    // two loads at construction, two on the first pass, then the rebuilt unit
    let mut r = rig(vec![
        Ok(unit(8, &[("run", 42)])),
        Ok(unit(8, &[("run", 42)])),
        Ok(unit(8, &[("run", 42)])),
        Ok(unit(8, &[("run", 42)])),
        Ok(unit(24, &[("run", 43)])),
    ]);
    r.manager.reload();
    assert_eq!(r.manager.host.libgame.as_ref().unwrap().get("run"), Some(42));
    assert_eq!(count(&r.log, Call::Unload), 0);

    // the artifact is rebuilt between ticks; the watcher reports the change
    r.game_events.borrow_mut().push(ChangeEvent::Touched("alpha".to_string()));
    let updates_before = count_updates(&r.log);
    let errors = r.manager.reload();
    assert!(errors.is_empty());

    // unload ran on the old unit, reload on the new one
    assert_eq!(count(&r.log, Call::Unload), 1);
    assert_eq!(count(&r.log, Call::Reload), 3);
    // the state buffer is resized to the newly reported size (24 -> 24)
    assert_eq!(r.manager.libgame.state.len(), 24);
    // the registry entry is replaced and this pass's update wave saw the
    // new table already
    assert_eq!(r.manager.host.libgame.as_ref().unwrap().get("run"), Some(43));
    assert!(count_updates(&r.log) > updates_before);
    assert_eq!(last_update_saw(&r.log), Some(43));
}

#[test]
fn missing_export_keeps_the_prior_table_and_unit() {
    let mut r = rig(vec![
        Ok(unit(8, &[("run", 42)])),
        Ok(unit(8, &[("run", 42)])),
        Ok(unit(8, &[("run", 42)])),
        Ok(unit(8, &[("run", 42)])),
        Ok(unit(8, &[("other", 7)])),
    ]);
    r.manager.reload();
    assert_eq!(r.manager.host.libgame.as_ref().unwrap().get("run"), Some(42));

    // the rebuilt artifact lacks the declared `run` export
    r.game_events.borrow_mut().push(ChangeEvent::Touched("alpha".to_string()));
    let errors = r.manager.reload();
    assert_eq!(errors, vec![Error::MissingExport("run".to_string())]);

    // the old unit was neither unloaded nor replaced, and the registry
    // still serves the old, working exports
    assert_eq!(count(&r.log, Call::Unload), 0);
    assert!(r.manager.libgame.symbols.is_some());
    assert_eq!(r.manager.host.libgame.as_ref().unwrap().get("run"), Some(42));
}

#[test]
fn failed_load_unloads_and_keeps_state_bytes() {
    let mut r = rig(vec![
        Ok(unit(8, &[("run", 42)])),
        Ok(unit(8, &[("run", 42)])),
        Ok(unit(8, &[("run", 42)])),
        Ok(unit(8, &[("run", 42)])),
        Err(Error::LoadFailure),
    ]);
    r.manager.reload();
    r.manager.libgame.state.write(0, 0xAB);

    r.game_events.borrow_mut().push(ChangeEvent::Touched("alpha".to_string()));
    let errors = r.manager.reload();
    assert_eq!(errors, vec![Error::LoadFailure]);

    // the module is unloaded (after its own cleanup) but the state bytes
    // survive for the next successful reload
    assert!(r.manager.libgame.symbols.is_none());
    assert_eq!(count(&r.log, Call::Unload), 1);
    assert_eq!(r.manager.libgame.state.read(0), 0xAB);
}

#[test]
fn init_runs_once_and_deinit_at_most_once() {
    let mut r = rig(vec![Ok(unit(8, &[("run", 42)]))]);
    r.manager.reload();
    r.game_events.borrow_mut().push(ChangeEvent::Touched("alpha".to_string()));
    r.manager.reload();
    assert_eq!(count(&r.log, Call::Init), 2, "once per module over its whole life");

    r.manager.teardown();
    assert_eq!(count(&r.log, Call::Deinit), 2, "once per module holding a unit");
    r.manager.teardown();
    assert_eq!(count(&r.log, Call::Deinit), 2, "teardown is idempotent");
}

#[test]
fn deinit_skipped_without_a_loaded_unit() {
    // neither module ever reloads, so no unit is held at teardown
    let mut r = rig(vec![Ok(unit(8, &[("run", 42)]))]);
    r.manager.teardown();
    assert_eq!(count(&r.log, Call::Deinit), 0);
    assert_eq!(count(&r.log, Call::Init), 2, "construction still initialized each module");
}
