//! The production event source: a narrow, trusted bridge to the `notify`
//! crate, which delivers debounced filesystem notifications through a
//! channel that a background observer thread fills and [`crate::watcher`]
//! drains.

use vstd::prelude::*;

use std::sync::mpsc::Receiver;
use std::sync::mpsc::Sender;
use crate::watcher::ChangeEvent;
use crate::watcher::EventSource;
use crate::watcher::FsEvent;
use notify::DebouncedEvent as DE;

verus! {

#[verifier::external_type_specification]
#[verifier::external_body]
pub struct ExNotifyWatcher(notify::RecommendedWatcher);

#[verifier::external_type_specification]
#[verifier::external_body]
pub struct ExDebouncedEvent(notify::DebouncedEvent);

#[verifier::external_type_specification]
#[verifier::external_body]
pub struct ExPathBuf(std::path::PathBuf);

#[verifier::external_type_specification]
#[verifier::external_body]
#[verifier::reject_recursive_types(T)]
pub struct ExReceiver<T>(std::sync::mpsc::Receiver<T>);

#[verifier::external_type_specification]
#[verifier::external_body]
#[verifier::reject_recursive_types(T)]
pub struct ExSender<T>(std::sync::mpsc::Sender<T>);

/// Relies on std::sync::mpsc::channel: a fresh asynchronous channel whose
/// receiver never blocks on `try_recv`.
#[verifier::external_body]
fn event_channel() -> (Sender<notify::DebouncedEvent>, Receiver<notify::DebouncedEvent>) {
    std::sync::mpsc::channel()
}

/// Relies on notify::watcher: a debounced watcher that delivers into the
/// given channel, coalescing raw event bursts within the delay window;
/// nothing when the backend could not be initialized.
#[verifier::external_body]
fn new_debounced_watcher(tx: Sender<notify::DebouncedEvent>, delay_secs: u64) -> Option<
    notify::RecommendedWatcher,
> {
    notify::watcher(tx, std::time::Duration::from_secs(delay_secs)).ok()
}

/// Relies on notify::Watcher::watch: subscribes to events for the given
/// directory and its immediate children, without recursing further; reports
/// whether the subscription was established.
#[verifier::external_body]
fn watch_dir(w: &mut notify::RecommendedWatcher, dir: &str) -> bool {
    notify::Watcher::watch(w, std::path::Path::new(dir), notify::RecursiveMode::NonRecursive).is_ok()
}

/// Relies on std::sync::mpsc::Receiver::try_recv: one pending event,
/// without blocking; nothing when the channel is empty or closed.
#[verifier::external_body]
fn try_recv_event(rx: &Receiver<notify::DebouncedEvent>) -> Option<notify::DebouncedEvent> {
    rx.try_recv().ok()
}

/// Relies on std::path::Path::to_string_lossy: the path as text.
#[verifier::external_body]
fn path_text(p: std::path::PathBuf) -> String {
    p.to_string_lossy().into_owned()
}

/// Relies on the shape of notify::DebouncedEvent alone: each variant is
/// carried over unchanged, with paths as plain text.
#[verifier::external_body]
fn to_fs_event(ev: notify::DebouncedEvent) -> FsEvent {
    match ev {
        DE::NoticeWrite(p) => FsEvent::NoticeWrite(path_text(p)),
        DE::NoticeRemove(p) => FsEvent::NoticeRemove(path_text(p)),
        DE::Create(p) => FsEvent::Create(path_text(p)),
        DE::Write(p) => FsEvent::Write(path_text(p)),
        DE::Chmod(p) => FsEvent::Chmod(path_text(p)),
        DE::Remove(p) => FsEvent::Remove(path_text(p)),
        DE::Rename(a, b) => FsEvent::Rename(path_text(a), path_text(b)),
        DE::Rescan => FsEvent::Rescan,
        DE::Error(_, p) => FsEvent::Error(p.map(path_text)),
    }
}

/// Relies on std::path::Path::canonicalize: the absolute, symlink-free form
/// of the path, when the file exists and resolution succeeds.  A resolution
/// failure is reported as the one I/O failure kind, as the body shows.
#[verifier::external_body]
pub(crate) fn canonical_path(p: &str) -> (r: Result<String, crate::errors::Error>)
    ensures
        r matches Err(e) ==> e == crate::errors::Error::IoFailure,
{
    match std::path::Path::new(p).canonicalize() {
        Ok(c) => Ok(c.to_string_lossy().into_owned()),
        Err(_) => Err(crate::errors::Error::IoFailure),
    }
}

/// Classifies one raw notification: write-like events have their paths
/// resolved to canonical form, every other kind can never trigger a reload.
pub fn resolve_event(ev: FsEvent) -> (r: ChangeEvent)
    ensures
        match ev {
            FsEvent::NoticeWrite(_) | FsEvent::Write(_) | FsEvent::Create(_) => r is Touched || r
                is PathError,
            _ => r == ChangeEvent::Other,
        },
{
    match ev {
        FsEvent::NoticeWrite(p) | FsEvent::Write(p) | FsEvent::Create(p) => {
            match canonical_path(p.as_str()) {
                Ok(cp) => ChangeEvent::Touched(cp),
                Err(_) => ChangeEvent::PathError,
            }
        },
        _ => ChangeEvent::Other,
    }
}

/// A change-event source fed by the debounced notification backend.
///
/// The backend's observer thread only enqueues raw events; they are acted
/// upon solely when the coordinating thread drains them through
/// [`EventSource::try_next`].
pub struct NotifyEventSource {
    watcher: notify::RecommendedWatcher,
    rx: Receiver<notify::DebouncedEvent>,
}

impl NotifyEventSource {
    /// Subscribes to change notifications for the given directory,
    /// debounced with the given delay.  Failing to establish the watch is a
    /// setup failure: a module whose artifact cannot be observed can never
    /// hot reload.
    pub fn subscribe(dir: &str, delay_secs: u64) -> (r: Result<NotifyEventSource, crate::errors::Error>)
        ensures
            r is Err ==> r == Err::<NotifyEventSource, crate::errors::Error>(crate::errors::Error::WatchSetupFailure),
    {
        let (tx, rx) = event_channel();
        let mut watcher = match new_debounced_watcher(tx, delay_secs) {
            Some(w) => w,
            None => {
                return Err(crate::errors::Error::WatchSetupFailure);
            },
        };
        if watch_dir(&mut watcher, dir) {
            Ok(NotifyEventSource { watcher, rx })
        } else {
            Err(crate::errors::Error::WatchSetupFailure)
        }
    }
}

impl EventSource for NotifyEventSource {
    fn try_next(&mut self) -> Option<ChangeEvent> {
        match try_recv_event(&self.rx) {
            None => None,
            Some(raw) => Some(resolve_event(to_fs_event(raw))),
        }
    }
}

} // verus!
