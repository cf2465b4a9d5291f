//! A value-level model of the readable memory of the target process.
//!
//! The reader never touches the target directly: whoever owns the operating
//! system boundary captures the readable regions as plain bytes and hands
//! them in as a `MemorySpace`.  A read succeeds only when the whole
//! requested range lies inside one captured region; a short read is a
//! failure, never a truncation, because every consumer treats a partial
//! pointer value as corrupt.
//!
//! Addresses are 32-bit absolute virtual addresses in the target's address
//! space, matching the pointer size of the target build; all multi-byte
//! values are little-endian.

use vstd::prelude::*;

verus! {

/// One contiguous run of readable bytes, starting at `start`.
pub struct MemRegion {
    pub start: u32,
    pub bytes: Vec<u8>,
}

/// The readable memory of the target process, as captured regions.
///
/// Where regions overlap, the earliest region that fully contains a
/// requested range answers it.
pub struct MemorySpace {
    pub regions: Vec<MemRegion>,
}

/// The requested range `[addr, addr + len)` lies fully inside `r`.
pub open spec fn region_covers(r: MemRegion, addr: u32, len: nat) -> bool {
    r.start <= addr && addr + len <= r.start + r.bytes@.len()
}

/// The bytes of `[addr, addr + len)` out of the first region of `regions`
/// that fully contains that range; `None` when no region does.
pub open spec fn spec_read_seq(regions: Seq<MemRegion>, addr: u32, len: nat) -> Option<Seq<u8>>
    decreases regions.len(),
{
    if regions.len() == 0 {
        None
    } else if region_covers(regions[0], addr, len) {
        Some(regions[0].bytes@.subrange(addr - regions[0].start, addr - regions[0].start + len))
    } else {
        spec_read_seq(regions.drop_first(), addr, len)
    }
}

/// The byte at `addr`, when readable.
pub open spec fn spec_read_byte(m: MemorySpace, addr: u32) -> Option<u8> {
    match spec_read_seq(m.regions@, addr, 1) {
        Some(s) => Some(s[0]),
        None => None,
    }
}

/// The little-endian 32-bit value at `addr`, when all four bytes are
/// readable as one range.
pub open spec fn spec_read_u32(m: MemorySpace, addr: u32) -> Option<u32> {
    match spec_read_seq(m.regions@, addr, 4) {
        Some(s) => Some(le_u32(s)),
        None => None,
    }
}

/// Little-endian interpretation of four bytes.
pub open spec fn le_u32(s: Seq<u8>) -> u32
    recommends
        s.len() == 4,
{
    (s[0] + s[1] * 0x100 + s[2] * 0x1_0000 + s[3] * 0x100_0000) as u32
}

impl MemorySpace {
    /// An address space with nothing readable.
    pub fn new() -> (r: MemorySpace)
        ensures
            r.regions@.len() == 0,
    {
        MemorySpace { regions: Vec::new() }
    }

    /// Makes `[start, start + bytes.len())` readable with the given bytes.
    pub fn add_region(&mut self, start: u32, bytes: Vec<u8>)
        ensures
            final(self).regions@ == old(self).regions@.push(MemRegion { start, bytes: bytes }),
    {
        self.regions.push(MemRegion { start, bytes });
    }

    /// Reads `len` bytes at `addr`; fails unless the whole range is
    /// readable within one captured region.
    pub fn read_bytes(&self, addr: u32, len: usize) -> (r: Option<Vec<u8>>)
        ensures
            r matches Some(v) ==> Some(v@) == spec_read_seq(self.regions@, addr, len as nat),
            r matches Some(v) ==> v@.len() == len,
            r is None ==> spec_read_seq(self.regions@, addr, len as nat) is None,
    {
        proof {
            assert(self.regions@.skip(0) =~= self.regions@);
        }
        let mut i: usize = 0;
        while i < self.regions.len()
            invariant
                i <= self.regions@.len(),
                spec_read_seq(self.regions@, addr, len as nat) == spec_read_seq(
                    self.regions@.skip(i as int),
                    addr,
                    len as nat,
                ),
            decreases self.regions@.len() - i,
        {
            let reg = &self.regions[i];
            let covers = reg.start as u128 <= addr as u128 && addr as u128 + len as u128
                <= reg.start as u128 + reg.bytes.len() as u128;
            proof {
                assert(self.regions@.skip(i as int)[0] == self.regions@[i as int]);
                assert(covers == region_covers(self.regions@[i as int], addr, len as nat));
            }
            if covers {
                let off: usize = (addr - reg.start) as usize;
                let n: usize = reg.bytes.len();
                let mut out: Vec<u8> = Vec::new();
                let mut j: usize = 0;
                while j < len
                    invariant
                        region_covers(*reg, addr, len as nat),
                        off == addr - reg.start,
                        n == reg.bytes@.len(),
                        j <= len,
                        out@ == reg.bytes@.subrange(off as int, off + j),
                    decreases len - j,
                {
                    proof {
                        assert(off + j < n);
                    }
                    out.push(reg.bytes[off + j]);
                    proof {
                        assert(out@ =~= reg.bytes@.subrange(off as int, off + j + 1));
                    }
                    j = j + 1;
                }
                return Some(out);
            }
            proof {
                assert(self.regions@.skip(i as int).drop_first() =~= self.regions@.skip(
                    i + 1,
                ));
            }
            i = i + 1;
        }
        None
    }

    /// Reads the single byte at `addr`.
    pub fn read_byte(&self, addr: u32) -> (r: Option<u8>)
        ensures
            r == spec_read_byte(*self, addr),
    {
        match self.read_bytes(addr, 1) {
            Some(v) => Some(v[0]),
            None => None,
        }
    }

    /// Reads the little-endian 32-bit value at `addr`.
    pub fn read_u32(&self, addr: u32) -> (r: Option<u32>)
        ensures
            r == spec_read_u32(*self, addr),
    {
        match self.read_bytes(addr, 4) {
            Some(v) => {
                let b0 = v[0] as u32;
                let b1 = v[1] as u32;
                let b2 = v[2] as u32;
                let b3 = v[3] as u32;
                Some(b0 + b1 * 0x100 + b2 * 0x1_0000 + b3 * 0x100_0000)
            },
            None => None,
        }
    }
}

} // verus!
