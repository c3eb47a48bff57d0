//! Watcher planning: which re-ingestion work one filesystem event or
//! one initial scan gives rise to.
//!
//! The watcher itself is a long-running loop around the notification
//! layer; what the library owns — and verifies — is every decision that
//! loop takes: the lifecycle states, how an event maps to work, and how
//! a directory event fans out into one dispatch per contained file.
//! A malformed event is skipped, never fatal; one file's failure never
//! halts its siblings.

use vstd::prelude::*;

use crate::config::Config;

verus! {

/// A 'daemon' that watches for file changes. The blocking loop around
/// the notification layer lives with the application; every decision it
/// takes is a function here.
pub struct Watch;

/// The watcher's lifecycle; it has no terminal state under normal
/// operation.
#[derive(Clone, Copy, Debug, PartialEq, Eq, Structural)]
pub enum WatchState {
    /// Not started yet.
    Idle,
    /// Walking every configured root once.
    InitialScanning,
    /// Waiting on the notification layer.
    Live,
    /// Handing a batch of events out as work.
    Dispatching,
}

/// What happens to the watcher.
#[derive(Clone, Copy, Debug, PartialEq, Eq, Structural)]
pub enum WatchInput {
    /// The watcher is started.
    Begin,
    /// The initial scan of all roots finished.
    ScanComplete,
    /// A debounced batch of events arrived.
    Event,
    /// The batch has been handed out.
    Dispatched,
}

/// The kind of a debounced filesystem event: a relevant change, or
/// noise to be ignored.
#[derive(Clone, Copy, Debug, PartialEq, Eq, Structural)]
pub enum EventKind {
    Any,
    Other,
}

/// One debounced filesystem event, as the notification layer reported
/// it. A path that was not valid UTF-8 arrives as `None` and is
/// skipped.
#[derive(Clone, Debug)]
pub struct FsEvent {
    pub path: Option<String>,
    pub kind: EventKind,
    pub is_dir: bool,
}

/// One unit of work the watcher hands out.
#[derive(Clone, Debug)]
pub enum Dispatch {
    /// Re-scan everything under this directory.
    RescanDir(String),
    /// Re-ingest this one file.
    UpdateFile(String),
}

impl Watch {
    /// The lifecycle transition: starting leaves idleness, a finished
    /// scan goes live, an event enters dispatching, and a handed-out
    /// batch returns to live; any other input leaves the state alone.
    pub fn step(state: WatchState, input: WatchInput) -> (r: WatchState)
        ensures
            state is Idle && input is Begin ==> r is InitialScanning,
            state is InitialScanning && input is ScanComplete ==> r is Live,
            state is Live && input is Event ==> r is Dispatching,
            state is Dispatching && input is Dispatched ==> r is Live,
            !(state is Idle && input is Begin) && !(state is InitialScanning
                && input is ScanComplete) && !(state is Live && input is Event) && !(
            state is Dispatching && input is Dispatched) ==> r == state,
    {
        match (state, input) {
            (WatchState::Idle, WatchInput::Begin) => WatchState::InitialScanning,
            (WatchState::InitialScanning, WatchInput::ScanComplete) => WatchState::Live,
            (WatchState::Live, WatchInput::Event) => WatchState::Dispatching,
            (WatchState::Dispatching, WatchInput::Dispatched) => WatchState::Live,
            _ => state,
        }
    }

    /// What one event gives rise to: noise and non-UTF-8 paths are
    /// skipped; a directory is re-scanned wholesale, because
    /// directory-level notifications do not reliably enumerate nested
    /// files; a file is re-ingested on its own.
    pub fn plan_event(ev: &FsEvent) -> (r: Option<Dispatch>)
        ensures
            r is Some <==> ev.kind is Any && ev.path is Some,
            r matches Some(d) ==> (ev.path matches Some(p) ==> (if ev.is_dir {
                d matches Dispatch::RescanDir(q) && q@ == p@
            } else {
                d matches Dispatch::UpdateFile(q) && q@ == p@
            })),
    {
        if !matches!(ev.kind, EventKind::Any) {
            return None;
        }
        match &ev.path {
            None => None,
            Some(p) => {
                if ev.is_dir {
                    Some(Dispatch::RescanDir(p.clone()))
                } else {
                    Some(Dispatch::UpdateFile(p.clone()))
                }
            },
        }
    }

    /// A directory event fans out into exactly one re-ingestion
    /// dispatch per file the walk found beneath it, in walk order.
    pub fn expand_dir(listing: &Vec<String>) -> (r: Vec<Dispatch>)
        ensures
            r@.len() == listing@.len(),
            forall|i: int|
                0 <= i < r@.len() ==> ((#[trigger] r@[i]) matches Dispatch::UpdateFile(q) && q@
                    == listing@[i]@),
    {
        let mut out: Vec<Dispatch> = Vec::new();
        let n: usize = listing.len();
        let mut i: usize = 0;
        while i < n
            invariant
                n == listing@.len(),
                i <= n,
                out@.len() == i,
                forall|j: int|
                    0 <= j < i ==> ((#[trigger] out@[j]) matches Dispatch::UpdateFile(q) && q@
                        == listing@[j]@),
            decreases n - i,
        {
            out.push(Dispatch::UpdateFile(listing[i].clone()));
            i = i + 1;
        }
        out
    }

    /// The initial scan: every configured watch root is re-scanned
    /// recursively, one dispatch per root, in configuration order.
    pub fn plan_initial_scan(config: &Config) -> (r: Vec<Dispatch>)
        ensures
            r@.len() == config.watched_paths@.len(),
            forall|i: int|
                0 <= i < r@.len() ==> ((#[trigger] r@[i]) matches Dispatch::RescanDir(q) && q@
                    == config.watched_paths@[i]@),
    {
        let mut out: Vec<Dispatch> = Vec::new();
        let n: usize = config.watched_paths.len();
        let mut i: usize = 0;
        while i < n
            invariant
                n == config.watched_paths@.len(),
                i <= n,
                out@.len() == i,
                forall|j: int|
                    0 <= j < i ==> ((#[trigger] out@[j]) matches Dispatch::RescanDir(q) && q@
                        == config.watched_paths@[j]@),
            decreases n - i,
        {
            out.push(Dispatch::RescanDir(config.watched_paths[i].clone()));
            i = i + 1;
        }
        out
    }
}

} // verus!
