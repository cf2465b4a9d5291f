//! Reconstruction of the two delimited text fields — track title, then
//! author — from an unstructured byte stream read one byte at a time.
//!
//! The stream has no schema and no length prefixes.  The title runs up to a
//! fixed multi-byte sentinel, the author up to a single terminator byte;
//! both delimiters are stripped, and each raw field is then normalized into
//! text ([`crate::text::spec_normalize`]).  The stream gives no termination
//! guarantee, so every field scan carries an explicit byte budget and fails
//! with [`CoreError::TrackUnavailable`] when neither delimiter appears in
//! time; a field that is not decodable as UTF-8 fails with
//! [`CoreError::TextDecodeFailure`].  Empty fields are fine: a delimiter
//! may arrive before any content byte.
//!
//! [`TrackTextParser`] is the scan as a byte-fed step machine for callers
//! that read the target's memory incrementally; [`scan_field`] runs one
//! whole field scan against a captured [`MemorySpace`].

use vstd::prelude::*;

use crate::memory::{spec_read_byte, MemorySpace};
use crate::resolver::wrap_add32;
use crate::text::{ends_with, ends_with_bytes, normalize_field, spec_normalize};
use crate::{CoreError, CurrentTrack};

verus! {

/// One whole field scan: bytes are read at `addr`, `addr + 1`, ... and
/// appended to `acc` until the accumulated bytes end with `delim`; the
/// result is the field with the delimiter stripped, together with the
/// address right after the delimiter, where the next field starts.
/// `None` when a read fails, or when `budget` more bytes do not bring the
/// delimiter.
pub open spec fn spec_scan(
    mem: MemorySpace,
    addr: u32,
    delim: Seq<u8>,
    budget: nat,
    acc: Seq<u8>,
) -> Option<(Seq<u8>, u32)>
    decreases budget,
{
    if budget == 0 {
        None
    } else {
        match spec_read_byte(mem, addr) {
            None => None,
            Some(b) => {
                let acc2 = acc.push(b);
                if ends_with(acc2, delim) {
                    Some((acc2.take(acc2.len() - delim.len()), wrap_add32(addr, 1)))
                } else {
                    spec_scan(mem, wrap_add32(addr, 1), delim, (budget - 1) as nat, acc2)
                }
            },
        }
    }
}

/// Scans one field out of a captured memory, starting at `addr`.
///
/// Returns the raw field bytes with the delimiter stripped, and the
/// address of the byte after the delimiter.  Fails with
/// [`CoreError::TrackUnavailable`] when a read fails or the delimiter does
/// not appear within `budget` bytes; no partial field is returned.
pub fn scan_field(mem: &MemorySpace, addr: u32, delim: &Vec<u8>, budget: usize) -> (r: Result<
    (Vec<u8>, u32),
    CoreError,
>)
    ensures
        r matches Ok(v) ==> spec_scan(*mem, addr, delim@, budget as nat, Seq::<u8>::empty())
            == Some((v.0@, v.1)),
        r is Err ==> r == Err::<(Vec<u8>, u32), CoreError>(CoreError::TrackUnavailable)
            && spec_scan(*mem, addr, delim@, budget as nat, Seq::<u8>::empty()) is None,
{
    let mut buf: Vec<u8> = Vec::new();
    let mut used: usize = 0;
    let mut cur: u32 = addr;
    while used < budget
        invariant
            used <= budget,
            spec_scan(*mem, addr, delim@, budget as nat, Seq::<u8>::empty()) == spec_scan(
                *mem,
                cur,
                delim@,
                (budget - used) as nat,
                buf@,
            ),
        decreases budget - used,
    {
        match mem.read_byte(cur) {
            None => {
                return Err(CoreError::TrackUnavailable);
            },
            Some(b) => {
                buf.push(b);
                if ends_with_bytes(&buf, delim) {
                    proof {
                        assert(buf@.len() >= delim@.len());
                    }
                    let keep: usize = buf.len() - delim.len();
                    buf.truncate(keep);
                    return Ok((buf, cur.wrapping_add(1)));
                }
                used = used + 1;
                cur = cur.wrapping_add(1);
            },
        }
    }
    Err(CoreError::TrackUnavailable)
}

/// Which field the parser is currently accumulating.
pub enum ParsePhase {
    Title,
    Author,
}

/// The field scan as a byte-fed step machine, for callers that read the
/// target's memory one byte at a time: feed each byte with [`Self::feed`],
/// report a failed read with [`Self::abort_read_failure`], and stop as
/// soon as [`Self::done`] — either `finished` holds the reconstructed
/// track, or `fault` says why there is none.
pub struct TrackTextParser {
    /// The byte pattern that ends the title field.
    pub sentinel: Vec<u8>,
    /// The byte that ends the author field.
    pub terminator: u8,
    /// Bytes allowed per field before the scan gives up.
    pub field_budget: usize,
    /// Bytes of the current field accumulated so far.
    pub buffer: Vec<u8>,
    /// How many bytes the current field has consumed.
    pub used: usize,
    /// Which field is being accumulated.
    pub phase: ParsePhase,
    /// The title, once its sentinel has been seen.
    pub title: Option<String>,
    /// The whole track, once the author's terminator has been seen.
    pub finished: Option<CurrentTrack>,
    /// Why the parse stopped without a track, if it did.
    pub fault: Option<CoreError>,
}

impl TrackTextParser {
    /// The machine still accepts bytes.
    pub open spec fn in_progress(self) -> bool {
        self.finished is None && self.fault is None
    }

    /// Internal consistency: a title exists exactly once the author field
    /// is being accumulated.
    pub open spec fn wf(self) -> bool {
        &&& self.phase is Author ==> self.title is Some
        &&& self.phase is Title ==> self.title is None
    }

    /// A fresh parser for one track: an empty title accumulation.
    pub fn new(sentinel: Vec<u8>, terminator: u8, field_budget: usize) -> (r: TrackTextParser)
        ensures
            r.wf(),
            r.in_progress(),
            r.sentinel@ == sentinel@,
            r.terminator == terminator,
            r.field_budget == field_budget,
            r.buffer@ == Seq::<u8>::empty(),
            r.used == 0,
            r.phase is Title,
            r.title is None,
    {
        TrackTextParser {
            sentinel,
            terminator,
            field_budget,
            buffer: Vec::new(),
            used: 0,
            phase: ParsePhase::Title,
            title: None,
            finished: None,
            fault: None,
        }
    }

    /// Whether the parse has ended, in a track or in a fault.
    pub fn done(&self) -> (r: bool)
        ensures
            r == !self.in_progress(),
    {
        self.finished.is_some() || self.fault.is_some()
    }

    /// A read of the next stream byte failed: the scan aborts and no
    /// partial track is ever produced.
    pub fn abort_read_failure(&mut self)
        requires
            old(self).wf(),
        ensures
            final(self).wf(),
            !final(self).in_progress(),
            final(self).finished == old(self).finished,
            final(self).finished is None ==> final(self).fault is Some,
            old(self).in_progress() ==> final(self).fault == Some(CoreError::TrackUnavailable),
    {
        if self.finished.is_none() && self.fault.is_none() {
            self.fault = Some(CoreError::TrackUnavailable);
        }
    }

    /// Hands the machine the next byte of the stream.
    pub fn feed(&mut self, b: u8)
        requires
            old(self).wf(),
            old(self).in_progress(),
        ensures
            final(self).wf(),
            final(self).sentinel == old(self).sentinel,
            final(self).terminator == old(self).terminator,
            final(self).field_budget == old(self).field_budget,
            ({
                let buf2 = old(self).buffer@.push(b);
                let s = *old(self);
                let t = *final(self);
                match s.phase {
                    ParsePhase::Title => {
                        if ends_with(buf2, s.sentinel@) {
                            match spec_normalize(buf2.take(buf2.len() - s.sentinel@.len())) {
                                Some(txt) => {
                                    &&& t.phase is Author
                                    &&& t.title matches Some(v) && v@ == txt
                                    &&& t.buffer@ == Seq::<u8>::empty()
                                    &&& t.used == 0
                                    &&& t.in_progress()
                                },
                                None => t.finished is None && t.fault == Some(
                                    CoreError::TextDecodeFailure,
                                ),
                            }
                        } else if s.used + 1 >= s.field_budget {
                            t.finished is None && t.fault == Some(CoreError::TrackUnavailable)
                        } else {
                            &&& t.phase is Title
                            &&& t.title is None
                            &&& t.buffer@ == buf2
                            &&& t.used == s.used + 1
                            &&& t.in_progress()
                        }
                    },
                    ParsePhase::Author => {
                        if ends_with(buf2, seq![s.terminator]) {
                            match spec_normalize(buf2.take(buf2.len() - 1)) {
                                Some(txt) => {
                                    &&& t.finished matches Some(ct) && ct.title@ == s.title->0@
                                        && ct.author@ == txt
                                    &&& t.fault is None
                                },
                                None => t.finished is None && t.fault == Some(
                                    CoreError::TextDecodeFailure,
                                ),
                            }
                        } else if s.used + 1 >= s.field_budget {
                            t.finished is None && t.fault == Some(CoreError::TrackUnavailable)
                        } else {
                            &&& t.phase is Author
                            &&& t.title == s.title
                            &&& t.buffer@ == buf2
                            &&& t.used == s.used + 1
                            &&& t.in_progress()
                        }
                    },
                }
            }),
    {
        self.buffer.push(b);
        let is_title = match self.phase {
            ParsePhase::Title => true,
            ParsePhase::Author => false,
        };
        let delim_len: usize = if is_title {
            self.sentinel.len()
        } else {
            1
        };
        let hit = if is_title {
            ends_with_bytes(&self.buffer, &self.sentinel)
        } else {
            let last = self.buffer[self.buffer.len() - 1];
            proof {
                let buf2 = self.buffer@;
                if buf2.last() == self.terminator {
                    assert(buf2.subrange(buf2.len() - 1, buf2.len() as int) =~= seq![
                        self.terminator,
                    ]);
                } else {
                    assert(buf2.subrange(buf2.len() - 1, buf2.len() as int)[0] == buf2.last());
                }
            }
            last == self.terminator
        };
        if hit {
            proof {
                assert(self.buffer@.len() >= delim_len);
            }
            let keep: usize = self.buffer.len() - delim_len;
            self.buffer.truncate(keep);
            match normalize_field(&self.buffer) {
                Some(txt) => {
                    if is_title {
                        self.title = Some(txt);
                        self.buffer.clear();
                        self.used = 0;
                        self.phase = ParsePhase::Author;
                    } else {
                        let t = match &self.title {
                            Some(s) => s.clone(),
                            None => String::new(),
                        };
                        self.finished = Some(CurrentTrack { title: t, author: txt });
                    }
                },
                None => {
                    self.fault = Some(CoreError::TextDecodeFailure);
                },
            }
        } else if self.field_budget == 0 || self.used >= self.field_budget - 1 {
            self.fault = Some(CoreError::TrackUnavailable);
        } else {
            self.used = self.used + 1;
        }
    }
}

} // verus!
