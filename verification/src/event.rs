//! File-system change events, as the reload logic reads them.

use vstd::prelude::*;

verus! {

/// A change that the file watcher reports, with the path it concerns.
#[derive(Debug, PartialEq, Eq)]
pub enum WatchEvent {
    /// A file or directory appeared.
    Created(String),
    /// A file was written to.
    Modified(String),
    /// A file or directory went away.
    Removed(String),
    /// Anything else the watcher may report.
    Other,
}

/// The mathematical model of a `WatchEvent`.
pub enum WatchEventView {
    Created(Seq<char>),
    Modified(Seq<char>),
    Removed(Seq<char>),
    Other,
}

impl WatchEventView {
    /// The path that a reload may be started for: that of a creation or a
    /// modification, and of nothing else.
    pub open spec fn candidate(self) -> Option<Seq<char>> {
        match self {
            WatchEventView::Created(p) => Some(p),
            WatchEventView::Modified(p) => Some(p),
            WatchEventView::Removed(_) => None,
            WatchEventView::Other => None,
        }
    }
}

impl View for WatchEvent {
    type V = WatchEventView;

    open spec fn view(&self) -> WatchEventView {
        match self {
            WatchEvent::Created(p) => WatchEventView::Created(p@),
            WatchEvent::Modified(p) => WatchEventView::Modified(p@),
            WatchEvent::Removed(p) => WatchEventView::Removed(p@),
            WatchEvent::Other => WatchEventView::Other,
        }
    }
}

/// The model of an event that may be absent.
pub open spec fn event_view(event: Option<WatchEvent>) -> Option<WatchEventView> {
    match event {
        Some(e) => Some(e@),
        None => None,
    }
}

/// The candidate path of an event that may be absent.
pub open spec fn candidate_of(event: Option<WatchEventView>) -> Option<Seq<char>> {
    match event {
        Some(e) => e.candidate(),
        None => None,
    }
}

impl WatchEvent {
    /// The path that a reload may be started for, borrowed from the event.
    /// A host asks the file system about this path before it hands the
    /// event on.
    pub fn candidate_path(&self) -> (path: Option<&String>)
        ensures
            path is Some <==> self@.candidate() is Some,
            path matches Some(p) ==> Some(p@) == self@.candidate(),
    {
        match self {
            WatchEvent::Created(p) => Some(p),
            WatchEvent::Modified(p) => Some(p),
            WatchEvent::Removed(_) => None,
            WatchEvent::Other => None,
        }
    }

    /// The path that a reload may be started for, taken out of the event.
    pub fn into_candidate(self) -> (path: Option<String>)
        ensures
            crate::path::text_of(path) == self@.candidate(),
    {
        match self {
            WatchEvent::Created(p) => Some(p),
            WatchEvent::Modified(p) => Some(p),
            WatchEvent::Removed(_) => None,
            WatchEvent::Other => None,
        }
    }
}

} // verus!
