//! Playback-state introspection for a closed-source media player.
//!
//! The library locates the player process by name, finds the load address of
//! a named module inside it, walks multi-hop pointer chains anchored at fixed
//! offsets in that module, and reconstructs two sentinel-delimited text
//! fields (track title and author) from an unstructured byte stream.
//!
//! All decisions are made over plain data: process and module tables and a
//! read-only view of the target's memory are handed in as values, so every
//! step from name matching to text extraction is verified.  The operating
//! system boundary itself (process snapshots, cross-process reads) lives
//! outside the library and only supplies those values.

use vstd::prelude::*;
use vstd::string::StringExecFns;

pub mod events;
pub mod memory;
pub mod parser;
pub mod reader;
pub mod resolver;
pub mod text;

verus! {

/// The title and author of the track the target process is rendering.
///
/// A plain value type; callers use it as a change-detection and cache key,
/// so equality compares both fields.
#[derive(Debug, Clone)]
pub struct CurrentTrack {
    pub title: String,
    pub author: String,
}

impl CurrentTrack {
    /// The one-line form of the track: title, then author.
    pub fn label(&self) -> (r: String)
        ensures
            r@ == self.title@ + " - "@ + self.author@,
    {
        let mut s = self.title.clone();
        s.append(" - ");
        s.append(self.author.as_str());
        s
    }
}

impl PartialEq for CurrentTrack {
    fn eq(&self, other: &CurrentTrack) -> (r: bool) {
        self.title == other.title && self.author == other.author
    }
}

impl vstd::std_specs::cmp::PartialEqSpecImpl for CurrentTrack {
    open spec fn obeys_eq_spec() -> bool {
        true
    }

    open spec fn eq_spec(&self, other: &CurrentTrack) -> bool {
        self.title@ == other.title@ && self.author@ == other.author@
    }
}

/// Everything that can go wrong between a poll and a usable answer.
///
/// Every variant degrades to an absent result (`None` or `false`) at the
/// reader boundary; raw failure detail never crosses it.
#[derive(Debug, Clone, Copy, PartialEq, Eq, Structural)]
pub enum CoreError {
    /// The target process is not running.
    Disconnected,
    /// The named module is not loaded in the target process.
    ModuleNotFound,
    /// A memory read was denied, hit an invalid address, or came back short.
    MemoryReadFailure,
    /// A field scan ran out of budget before its delimiter appeared.
    TrackUnavailable,
    /// A scanned field was not decodable as text.
    TextDecodeFailure,
}

} // verus!
