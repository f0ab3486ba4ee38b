//! The filesystem-change watcher that tells a module a reload is due.
//!
//! Each module subscribes to change notifications for the directory holding
//! its compiled artifact.  The notification backend coalesces bursts of raw
//! events with a fixed debounce window, so one rebuild yields at most one
//! pending signal; draining happens only inside an explicit, non-blocking
//! [`ChangeWatcher::poll`] made by the single coordinating thread.

use vstd::prelude::*;

use crate::errors::Error;

verus! {

/// Upper bound on events drained in one poll, so that draining the pending
/// mailbox is a bounded operation.
pub const POLL_EVENT_LIMIT: usize = 1024;

/// One pending change notification, already resolved against the
/// filesystem: either a touch of some canonical path that could concern a
/// module, an event that can never trigger a reload, or a touch whose path
/// could not be resolved.
#[derive(Debug, Clone, PartialEq, Eq)]
pub enum ChangeEvent {
    /// A file at this canonical path was written or created.
    Touched(String),
    /// An event of a kind that never triggers a reload.
    Other,
    /// A write-like event whose path could not be canonicalized.
    PathError,
}

/// A drained notification as the backend reports it, one variant per kind
/// of debounced filesystem event, with paths as plain strings.
pub enum FsEvent {
    NoticeWrite(String),
    NoticeRemove(String),
    Create(String),
    Write(String),
    Chmod(String),
    Remove(String),
    Rename(String, String),
    Rescan,
    Error(Option<String>),
}

/// Where a watcher's pending events come from.
///
/// The production source drains a debounced notification channel; a host
/// embedding the runtime may supply any other non-blocking source.
pub trait EventSource {
    /// Takes the next pending event, without blocking; `None` when the
    /// mailbox is currently empty.
    fn try_next(&mut self) -> Option<ChangeEvent>;
}

/// Whether one event means "this module's artifact changed".
pub open spec fn triggers(ev: ChangeEvent, path: Seq<char>) -> bool {
    ev matches ChangeEvent::Touched(p) && p@ == path
}

/// Whether a batch of drained events contains a path-resolution failure.
pub open spec fn any_path_error(evs: Seq<ChangeEvent>) -> bool {
    exists|i: int| 0 <= i < evs.len() && evs[i] is PathError
}

/// Whether a batch of drained events contains a change of the given path.
pub open spec fn any_trigger(evs: Seq<ChangeEvent>, path: Seq<char>) -> bool {
    exists|i: int| 0 <= i < evs.len() && triggers(evs[i], path)
}

/// Decides what one batch of drained events means for the module whose
/// artifact lives at the given canonical path: a failure if any path could
/// not be resolved, otherwise whether the artifact was touched.
pub fn classify_events(events: &Vec<ChangeEvent>, path: &String) -> (r: Result<bool, Error>)
    ensures
        any_path_error(events@) ==> r == Err::<bool, Error>(Error::IoFailure),
        !any_path_error(events@) ==> r == Ok::<bool, Error>(any_trigger(events@, path@)),
{
    let mut changed = false;
    let n = events.len();
    for i in 0..n
        invariant
            n == events@.len(),
            changed == any_trigger(events@.take(i as int), path@),
            !any_path_error(events@.take(i as int)),
    {
        match &events[i] {
            ChangeEvent::Touched(p) => {
                if *p == *path {
                    changed = true;
                    assert(triggers(events@[i as int], path@));
                }
            },
            ChangeEvent::Other => {},
            ChangeEvent::PathError => {
                assert(any_path_error(events@));
                return Err(Error::IoFailure);
            },
        }
        assert(events@.take(i + 1).drop_last() == events@.take(i as int));
        assert(events@.take(i + 1).last() == events@[i as int]);
        assert(changed == any_trigger(events@.take(i + 1), path@)) by {
            if changed && !any_trigger(events@.take(i as int), path@) {
                assert(triggers(events@.take(i + 1).last(), path@));
            }
            if any_trigger(events@.take(i + 1), path@) && !triggers(
                events@[i as int],
                path@,
            ) {
                let w = choose|j: int|
                    0 <= j < events@.take(i + 1).len() && #[trigger] triggers(
                        events@.take(i + 1)[j],
                        path@,
                    );
                if w < i {
                    assert(triggers(events@.take(i as int)[w], path@));
                }
            }
        }
        assert(!any_path_error(events@.take(i + 1))) by {
            if any_path_error(events@.take(i + 1)) {
                let w = choose|j: int|
                    0 <= j < events@.take(i + 1).len() && (#[trigger] events@.take(i + 1)[j])
                        is PathError;
                if w < i {
                    assert(events@.take(i as int)[w] is PathError);
                }
            }
        }
    }
    assert(events@.take(n as int) == events@);
    Ok(changed)
}

/// One module's change subscription: an event source plus the canonical
/// path of the artifact whose changes are of interest.
pub struct ChangeWatcher<S: EventSource> {
    source: S,
    path: String,
}

impl<S: EventSource> ChangeWatcher<S> {
    /// The canonical artifact path this watcher filters for.
    pub closed spec fn spec_path(&self) -> Seq<char> {
        self.path@
    }

    /// Binds an event source to the canonical path it is watched for.
    pub fn new(source: S, canonical_path: String) -> (r: ChangeWatcher<S>)
        ensures
            r.spec_path() == canonical_path@,
    {
        ChangeWatcher { source, path: canonical_path }
    }

    /// Drains the pending events, non-blockingly, and reports whether the
    /// watched artifact was written or created since the last poll.  The
    /// only failure is a path that could not be resolved.
    pub fn poll(&mut self) -> (r: Result<bool, Error>)
        ensures
            final(self).spec_path() == old(self).spec_path(),
            r matches Err(e) ==> e == Error::IoFailure,
    {
        let mut events: Vec<ChangeEvent> = Vec::new();
        let mut drained: usize = 0;
        while drained < POLL_EVENT_LIMIT
            invariant
                drained <= POLL_EVENT_LIMIT,
                self.path@ == old(self).path@,
            decreases POLL_EVENT_LIMIT - drained,
        {
            match self.source.try_next() {
                Some(ev) => events.push(ev),
                None => { break ; },
            }
            drained = drained + 1;
        }
        classify_events(&events, &self.path)
    }
}

} // verus!
