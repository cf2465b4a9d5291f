//! The playback-state reader: the façade that turns one snapshot of the
//! operating system's live state — process table, module table, readable
//! memory — into the three answers a poller wants: is the target running,
//! is it playing, and what track is it rendering.
//!
//! Nothing is cached between polls: every call re-derives its answer from
//! the snapshot it is handed, so a restarted or relocated target heals
//! itself on the next poll.  Every internal failure — absent process,
//! missing module, failed read, exhausted scan, undecodable text —
//! degrades to an absent answer (`false` or `None`); no raw failure detail
//! crosses this boundary.
//!
//! All the constants that tie the reader to one build of the target — name
//! substrings, pointer paths, sentinel bytes, scan budget — arrive in a
//! [`Profile`] supplied by the caller, never hard-coded here.

use vstd::prelude::*;

use crate::memory::{spec_read_byte, MemorySpace};
use crate::parser::{scan_field, spec_scan};
use crate::resolver::{resolve, spec_resolve, wrap_add32};
use crate::text::{contains_bytes, contains_seq, normalize_field, spec_normalize};
use crate::{CoreError, CurrentTrack};

verus! {

/// One process as the operating system reports it: its id and its raw
/// image name, padding and all.
pub struct ProcessEntry {
    pub pid: u32,
    pub name: Vec<u8>,
}

/// One module loaded in some process: the owning process id, the raw
/// reported base name, and the base load address.
pub struct ModuleEntry {
    pub pid: u32,
    pub name: Vec<u8>,
    pub base: u32,
}

/// A snapshot of the live state the reader works from: which processes
/// exist, which modules they have loaded, and what their memory holds.
/// Captured fresh for every poll by whoever owns the OS boundary.
pub struct OsSnapshot {
    pub processes: Vec<ProcessEntry>,
    pub modules: Vec<ModuleEntry>,
    pub memory: MemorySpace,
}

/// A static description of how to reach one field of interest from a
/// module's base address: add `static_offset`, then walk `offsets`.
pub struct PointerPath {
    pub static_offset: u32,
    pub offsets: Vec<u32>,
}

/// The configuration that ties the reader to one build of the target
/// binary.  Reverse-engineered and version-pinned, so it is supplied by
/// the caller rather than baked into the logic.
pub struct Profile {
    /// Substring that identifies the target process by image name.
    pub process_name: Vec<u8>,
    /// Substring that identifies the main process module, which anchors
    /// the playing-flag pointer path.
    pub process_module: Vec<u8>,
    /// Substring that identifies the embedded module which anchors the
    /// track-text pointer path.
    pub text_module: Vec<u8>,
    /// Path from the main module's base to the one-byte playing flag.
    pub playing_path: PointerPath,
    /// Path from the embedded module's base to the start of the track
    /// text stream.
    pub track_path: PointerPath,
    /// Byte pattern that ends the title field.
    pub sentinel: Vec<u8>,
    /// Byte that ends the author field.
    pub terminator: u8,
    /// Bytes allowed per scanned field before the scan gives up.
    pub field_budget: usize,
}

/// The id of the first process, in table order, whose reported name
/// contains `name`.  When several match, table order decides — the order
/// the operating system enumerated them in, which is not guaranteed
/// stable.
pub open spec fn spec_find_pid(procs: Seq<ProcessEntry>, name: Seq<u8>) -> Option<u32>
    decreases procs.len(),
{
    if procs.len() == 0 {
        None
    } else if contains_seq(procs[0].name@, name) {
        Some(procs[0].pid)
    } else {
        spec_find_pid(procs.drop_first(), name)
    }
}

/// The base address of the first module of process `pid`, in table order,
/// whose reported name contains `name`.
pub open spec fn spec_module_base(mods: Seq<ModuleEntry>, name: Seq<u8>, pid: u32) -> Option<u32>
    decreases mods.len(),
{
    if mods.len() == 0 {
        None
    } else if mods[0].pid == pid && contains_seq(mods[0].name@, name) {
        Some(mods[0].base)
    } else {
        spec_module_base(mods.drop_first(), name, pid)
    }
}

/// Whether the snapshot shows the target process running.
pub open spec fn spec_is_connected(os: OsSnapshot, p: Profile) -> bool {
    spec_find_pid(os.processes@, p.process_name@) is Some
}

/// What one poll learns about the playing flag: `None` as soon as any
/// step fails — target absent, module missing, a hop of the pointer walk
/// unreadable, the flag byte unreadable — and otherwise whether the flag
/// byte is nonzero.
pub open spec fn spec_is_playing(os: OsSnapshot, p: Profile) -> Option<bool> {
    match spec_find_pid(os.processes@, p.process_name@) {
        None => None,
        Some(pid) => match spec_module_base(os.modules@, p.process_module@, pid) {
            None => None,
            Some(base) => match spec_resolve(
                os.memory,
                wrap_add32(base, p.playing_path.static_offset),
                p.playing_path.offsets@,
            ) {
                None => None,
                Some(addr) => match spec_read_byte(os.memory, addr) {
                    None => None,
                    Some(flag) => Some(flag != 0),
                },
            },
        },
    }
}

/// The two text fields at the end of the track pointer path of process
/// `pid`: title, then author, each scanned and normalized.  `None` as
/// soon as any step fails.
pub open spec fn spec_track_text(os: OsSnapshot, p: Profile, pid: u32) -> Option<
    (Seq<char>, Seq<char>),
> {
    match spec_module_base(os.modules@, p.text_module@, pid) {
        None => None,
        Some(base) => match spec_resolve(
            os.memory,
            wrap_add32(base, p.track_path.static_offset),
            p.track_path.offsets@,
        ) {
            None => None,
            Some(addr) => match spec_scan(
                os.memory,
                addr,
                p.sentinel@,
                p.field_budget as nat,
                Seq::<u8>::empty(),
            ) {
                None => None,
                Some(title_scan) => match spec_scan(
                    os.memory,
                    title_scan.1,
                    seq![p.terminator],
                    p.field_budget as nat,
                    Seq::<u8>::empty(),
                ) {
                    None => None,
                    Some(author_scan) => match (
                        spec_normalize(title_scan.0),
                        spec_normalize(author_scan.0),
                    ) {
                        (Some(t), Some(a)) => Some((t, a)),
                        _ => None,
                    },
                },
            },
        },
    }
}

/// What one poll returns as the current track: nothing unless the same
/// snapshot says the target is playing, and otherwise the scanned and
/// normalized title and author — or nothing again, as soon as any step of
/// reaching or reading them fails.
pub open spec fn spec_current_track(os: OsSnapshot, p: Profile) -> Option<(Seq<char>, Seq<char>)> {
    if spec_is_playing(os, p) != Some(true) {
        None
    } else {
        match spec_find_pid(os.processes@, p.process_name@) {
            None => None,
            Some(pid) => spec_track_text(os, p, pid),
        }
    }
}

/// The stateless reader: every method takes a fresh snapshot and a
/// profile and derives its whole answer from them.
pub struct SpotifyMemReader {}

impl SpotifyMemReader {
    /// Finds the target process id by name-substring containment.
    ///
    /// Reported image names carry trailing padding, so containment rather
    /// than equality is deliberate; a name that merely embeds the wanted
    /// one also matches.  The first match in table order wins.
    pub fn find_pid_by_name(processes: &Vec<ProcessEntry>, name: &Vec<u8>) -> (r: Option<u32>)
        ensures
            r == spec_find_pid(processes@, name@),
    {
        let mut i: usize = 0;
        proof {
            assert(processes@.skip(0) =~= processes@);
        }
        while i < processes.len()
            invariant
                i <= processes@.len(),
                spec_find_pid(processes@, name@) == spec_find_pid(processes@.skip(i as int), name@),
            decreases processes@.len() - i,
        {
            proof {
                assert(processes@.skip(i as int)[0] == processes@[i as int]);
            }
            if contains_bytes(&processes[i].name, name) {
                return Some(processes[i].pid);
            }
            proof {
                assert(processes@.skip(i as int).drop_first() =~= processes@.skip(i + 1));
            }
            i = i + 1;
        }
        None
    }

    /// Finds the base load address of a module of process `pid`, again by
    /// name-substring containment in table order.
    pub fn get_module_base_address(
        modules: &Vec<ModuleEntry>,
        module_name: &Vec<u8>,
        pid: u32,
    ) -> (r: Option<u32>)
        ensures
            r == spec_module_base(modules@, module_name@, pid),
    {
        let mut i: usize = 0;
        proof {
            assert(modules@.skip(0) =~= modules@);
        }
        while i < modules.len()
            invariant
                i <= modules@.len(),
                spec_module_base(modules@, module_name@, pid) == spec_module_base(
                    modules@.skip(i as int),
                    module_name@,
                    pid,
                ),
            decreases modules@.len() - i,
        {
            proof {
                assert(modules@.skip(i as int)[0] == modules@[i as int]);
            }
            if modules[i].pid == pid && contains_bytes(&modules[i].name, module_name) {
                return Some(modules[i].base);
            }
            proof {
                assert(modules@.skip(i as int).drop_first() =~= modules@.skip(i + 1));
            }
            i = i + 1;
        }
        None
    }

    /// Whether the target process is running in this snapshot.
    pub fn is_connected(os: &OsSnapshot, profile: &Profile) -> (r: bool)
        ensures
            r == spec_is_connected(*os, *profile),
    {
        Self::find_pid_by_name(&os.processes, &profile.process_name).is_some()
    }

    /// One poll of the playing flag, with the reason when there is no
    /// answer: the target is absent, its main module is missing, or a
    /// resolution or read step failed.
    pub fn playing_state(os: &OsSnapshot, profile: &Profile) -> (r: Result<bool, CoreError>)
        ensures
            r == (match spec_find_pid(os.processes@, profile.process_name@) {
                None => Err::<bool, CoreError>(CoreError::Disconnected),
                Some(pid) => match spec_module_base(os.modules@, profile.process_module@, pid) {
                    None => Err::<bool, CoreError>(CoreError::ModuleNotFound),
                    Some(base) => match spec_resolve(
                        os.memory,
                        wrap_add32(base, profile.playing_path.static_offset),
                        profile.playing_path.offsets@,
                    ) {
                        None => Err::<bool, CoreError>(CoreError::MemoryReadFailure),
                        Some(addr) => match spec_read_byte(os.memory, addr) {
                            None => Err::<bool, CoreError>(CoreError::MemoryReadFailure),
                            Some(flag) => Ok::<bool, CoreError>(flag != 0),
                        },
                    },
                },
            }),
            r matches Ok(b) ==> spec_is_playing(*os, *profile) == Some(b),
            r is Err ==> spec_is_playing(*os, *profile) is None,
    {
        let pid = match Self::find_pid_by_name(&os.processes, &profile.process_name) {
            Some(pid) => pid,
            None => {
                return Err(CoreError::Disconnected);
            },
        };
        let base = match Self::get_module_base_address(
            &os.modules,
            &profile.process_module,
            pid,
        ) {
            Some(base) => base,
            None => {
                return Err(CoreError::ModuleNotFound);
            },
        };
        let addr = match resolve(
            &os.memory,
            base,
            profile.playing_path.static_offset,
            &profile.playing_path.offsets,
        ) {
            Ok(addr) => addr,
            Err(_) => {
                return Err(CoreError::MemoryReadFailure);
            },
        };
        match os.memory.read_byte(addr) {
            Some(flag) => Ok(Self::flag_means_playing(flag)),
            None => Err(CoreError::MemoryReadFailure),
        }
    }

    /// How the one-byte flag at the end of the playing path is read:
    /// any nonzero byte means playing.
    pub fn flag_means_playing(flag: u8) -> (r: bool)
        ensures
            r == (flag != 0),
    {
        flag != 0
    }

    /// Whether the target is playing: `None` when that cannot be known —
    /// the target is absent or any resolution or read step failed — and
    /// otherwise the playing flag.  `None` is distinct from
    /// `Some(false)`: unknown, not known-stopped.
    pub fn is_playing(os: &OsSnapshot, profile: &Profile) -> (r: Option<bool>)
        ensures
            r == spec_is_playing(*os, *profile),
            spec_find_pid(os.processes@, profile.process_name@) is None ==> r is None,
    {
        match Self::playing_state(os, profile) {
            Ok(b) => Some(b),
            Err(_) => None,
        }
    }

    /// The track the target is rendering: `None` unless this snapshot
    /// says it is playing, and otherwise the title and author scanned out
    /// of the text stream — or `None` again if any step of reaching,
    /// scanning or decoding them fails.  No partial track ever comes out.
    pub fn current_track(os: &OsSnapshot, profile: &Profile) -> (r: Option<CurrentTrack>)
        ensures
            r matches Some(ct) ==> spec_current_track(*os, *profile) == Some(
                (ct.title@, ct.author@),
            ),
            r is None ==> spec_current_track(*os, *profile) is None,
            spec_is_playing(*os, *profile) != Some(true) ==> r is None,
    {
        match Self::is_playing(os, profile) {
            Some(playing) => {
                if !playing {
                    return None;
                }
            },
            None => {
                return None;
            },
        }
        let pid = match Self::find_pid_by_name(&os.processes, &profile.process_name) {
            Some(pid) => pid,
            None => {
                return None;
            },
        };
        let base = match Self::get_module_base_address(&os.modules, &profile.text_module, pid) {
            Some(base) => base,
            None => {
                return None;
            },
        };
        let addr = match resolve(
            &os.memory,
            base,
            profile.track_path.static_offset,
            &profile.track_path.offsets,
        ) {
            Ok(addr) => addr,
            Err(_) => {
                return None;
            },
        };
        let title_scan = match scan_field(&os.memory, addr, &profile.sentinel, profile.field_budget)
            {
            Ok(s) => s,
            Err(_) => {
                return None;
            },
        };
        let mut term: Vec<u8> = Vec::new();
        term.push(profile.terminator);
        proof {
            assert(term@ =~= seq![profile.terminator]);
        }
        let author_scan = match scan_field(
            &os.memory,
            title_scan.1,
            &term,
            profile.field_budget,
        ) {
            Ok(s) => s,
            Err(_) => {
                return None;
            },
        };
        let title = match normalize_field(&title_scan.0) {
            Some(t) => t,
            None => {
                return None;
            },
        };
        let author = match normalize_field(&author_scan.0) {
            Some(a) => a,
            None => {
                return None;
            },
        };
        Some(CurrentTrack { title, author })
    }

    /// Interprets one raw scanned field as text, the way every field of
    /// the stream is interpreted: each signed byte reread as unsigned,
    /// the bytes decoded as UTF-8 — `None` when that decoding fails —
    /// then every NUL character removed, embedded ones included, and the
    /// surrounding whitespace trimmed.
    pub fn normalize_vec_i8_to_string(chars: &Vec<i8>) -> (r: Option<String>)
        ensures
            r is Some <==> spec_normalize(chars@.map_values(|c: i8| c as u8)) is Some,
            r matches Some(s) ==> Some(s@) == spec_normalize(chars@.map_values(|c: i8| c as u8)),
    {
        let mut bytes: Vec<u8> = Vec::new();
        let mut i: usize = 0;
        while i < chars.len()
            invariant
                i <= chars@.len(),
                bytes@.len() == i,
                forall|k: int| 0 <= k < i ==> bytes@[k] == chars@[k] as u8,
            decreases chars@.len() - i,
        {
            bytes.push(chars[i] as u8);
            i = i + 1;
        }
        proof {
            assert(bytes@ =~= chars@.map_values(|c: i8| c as u8));
        }
        normalize_field(&bytes)
    }
}

/// With the target process absent, one poll answers neutrally on every
/// question: not connected, playing unknown, no track — never a stale or
/// partial answer.
pub proof fn lemma_process_absent(os: OsSnapshot, profile: Profile)
    requires
        spec_find_pid(os.processes@, profile.process_name@) is None,
    ensures
        !spec_is_connected(os, profile),
        spec_is_playing(os, profile) is None,
        spec_current_track(os, profile) is None,
{
}

/// While a snapshot shows the target playing, the reported track is
/// exactly what the track path's text stream scans and normalizes to for
/// the located process — title, then author — and nothing else.
pub proof fn lemma_playing_track_reported(os: OsSnapshot, profile: Profile, pid: u32)
    requires
        spec_is_playing(os, profile) == Some(true),
        spec_find_pid(os.processes@, profile.process_name@) == Some(pid),
    ensures
        spec_current_track(os, profile) == spec_track_text(os, profile, pid),
{
}

} // verus!
