//! Decisions of the presentation loop around the reader: what a track
//! update means for the text shown to the user, and when a fresh poll
//! answer counts as a change worth announcing.
//!
//! The loop itself — timers, windows, channels — lives with the caller;
//! only the decisions are here.

use vstd::prelude::*;

use crate::CurrentTrack;

verus! {

/// Two poll answers describe the same state: both empty, or the same
/// title and author.
pub open spec fn spec_same_track(a: Option<CurrentTrack>, b: Option<CurrentTrack>) -> bool {
    match (a, b) {
        (Option::None, Option::None) => true,
        (Option::Some(x), Option::Some(y)) => x.title@ == y.title@ && x.author@ == y.author@,
        _ => false,
    }
}

/// Whether a fresh poll answer differs from the last one announced, and
/// so must be announced in turn.
pub fn track_changed(last: &Option<CurrentTrack>, current: &Option<CurrentTrack>) -> (r: bool)
    ensures
        r == !spec_same_track(*last, *current),
{
    match (last, current) {
        (Option::None, Option::None) => false,
        (Option::Some(a), Option::Some(b)) => !(*a == *b),
        _ => true,
    }
}

/// Decides what the user-facing text becomes when a track update arrives.
pub struct EventHandler {}

impl EventHandler {
    /// A fresh handler; it keeps no state of its own.
    pub fn new() -> (r: EventHandler)
        ensures
            r == (EventHandler {  }),
    {
        EventHandler {  }
    }

    /// The placeholder text a track update puts on screen: an invitation
    /// while nothing plays, a progress note while the lookup for the new
    /// track runs.
    pub fn on_track_update(&self, track: &Option<CurrentTrack>) -> (r: String)
        ensures
            track is None ==> r@ == "Start playing something!"@,
            track is Some ==> r@ == "processing..."@,
    {
        match track {
            Option::None => "Start playing something!".to_owned(),
            Option::Some(_) => "processing...".to_owned(),
        }
    }
}

} // verus!
