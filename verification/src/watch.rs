//! Watching a directory tree: what becomes of each event that the operating
//! system reports.
//!
//! The presentation layer is told that something changed and nothing else.
//! It lists again whatever it shows, so one signal per event is enough and
//! no event needs to be looked into.

use crate::failure::{Failure, FailureKind, FailureView};
use vstd::prelude::*;

verus! {

/// A watch on one root directory and all below it.
#[derive(Debug, PartialEq, Eq)]
pub struct WatchSession {
    /// The directory that is watched.
    pub root: String,
}

/// What the operating system's watch delivers.
#[derive(Debug, PartialEq, Eq)]
pub enum WatchEvent {
    /// Something below the root was created, modified, removed or renamed.
    Changed,
    /// An event could not be read.
    Unreadable { reason: String },
}

/// What the host does with one event.
#[derive(Debug, PartialEq, Eq)]
pub enum WatchReaction {
    /// Send the change signal to the presentation layer, without payload.
    Notify,
    /// Drop the event, with a note of the reason, and go on watching.
    Skip { reason: String },
}

/// A `WatchReaction` as a mathematical value.
pub enum ReactionView {
    Notify,
    Skip { reason: Seq<char> },
}

impl View for WatchReaction {
    type V = ReactionView;

    open spec fn view(&self) -> ReactionView {
        match self {
            WatchReaction::Notify => ReactionView::Notify,
            WatchReaction::Skip { reason } => ReactionView::Skip { reason: reason@ },
        }
    }
}

/// The name of the signal that tells the presentation layer of a change.
pub open spec fn change_signal() -> Seq<char> {
    "fs-change"@
}

/// A failure to set up a watch, with the operating system's words.
pub open spec fn watch_setup_failure(words: Seq<char>) -> FailureView {
    FailureView { kind: FailureKind::WatchSetupFailure, message: words }
}

/// What is done with `event`: every change is signalled, each one on its
/// own, and an event that could not be read is dropped.
pub open spec fn reaction_to(event: WatchEvent) -> ReactionView {
    match event {
        WatchEvent::Changed => ReactionView::Notify,
        WatchEvent::Unreadable { reason } => ReactionView::Skip { reason: reason@ },
    }
}

/// The name of the signal that tells the presentation layer of a change.
pub fn change_signal_name() -> (name: String)
    ensures
        name@ == change_signal(),
{
    "fs-change".to_owned()
}

/// Opens the session for a watch on `root`, given how registering it with
/// the operating system went. A watch that could not be registered gives no
/// session: the caller gets the failure at once, with the operating system's
/// words as they came.
pub fn start_watch(root: String, setup: Result<(), String>) -> (r: Result<WatchSession, Failure>)
    ensures
        match setup {
            Ok(_) => r matches Ok(session) && session.root@ == root@,
            Err(words) => r matches Err(f) && f@ == watch_setup_failure(words@),
        },
{
    match setup {
        Ok(_) => Ok(WatchSession { root }),
        Err(words) => Err(Failure::new(FailureKind::WatchSetupFailure, words)),
    }
}

impl WatchSession {
    /// Says what to do with `event`. The session itself is the same
    /// afterwards, whatever the event was: an event that could not be read
    /// does not end it.
    pub fn on_event(&self, event: WatchEvent) -> (reaction: WatchReaction)
        ensures
            reaction@ == reaction_to(event),
    {
        match event {
            WatchEvent::Changed => WatchReaction::Notify,
            WatchEvent::Unreadable { reason } => WatchReaction::Skip { reason },
        }
    }
}

} // verus!
