//! Pointer-chain resolution: from a base address and a static offset,
//! through an ordered chain of offset-then-dereference hops, to the final
//! address of a field of interest.
//!
//! The walk is: start at `base + static_offset`; with an empty chain that
//! is already the answer, with no dereference at all.  Otherwise the start
//! is dereferenced once, and then every offset except the last is added and
//! dereferenced in turn; the last offset is only added, so the result is
//! the address of the value itself, not a pointer to it.  A failed read at
//! any hop aborts the whole resolution: no partial or stale address ever
//! comes out.
//!
//! Address arithmetic wraps at 32 bits, matching the pointer size of the
//! target process.
//!
//! [`PointerChainResolver`] is the walk as a step machine: it announces the
//! next address it needs, the caller reads it (however it reaches the
//! target's memory) and feeds the outcome back.  [`resolve`] runs the whole
//! walk against a captured [`MemorySpace`].

use vstd::prelude::*;

use crate::memory::{spec_read_u32, MemorySpace};
use crate::CoreError;

verus! {

/// 32-bit address addition, wrapping as the target's pointers do.
pub open spec fn wrap_add32(a: u32, b: u32) -> u32 {
    vstd::wrapping::u32_specs::wrapping_add(a, b)
}

/// The result of a whole chain walk against `mem`, starting at the already
/// combined address `start` (base plus static offset): the final address,
/// or `None` as soon as any hop's read fails.
pub open spec fn spec_resolve(mem: MemorySpace, start: u32, offsets: Seq<u32>) -> Option<u32> {
    if offsets.len() == 0 {
        Some(start)
    } else {
        spec_walk(mem, start, offsets)
    }
}

/// The tail of a walk: a read is pending at `pending`, and `offsets` (never
/// empty here) still has to be applied.
pub open spec fn spec_walk(mem: MemorySpace, pending: u32, offsets: Seq<u32>) -> Option<u32>
    recommends
        offsets.len() > 0,
    decreases offsets.len(),
{
    match spec_read_u32(mem, pending) {
        None => None,
        Some(v) => if offsets.len() <= 1 {
            Some(wrap_add32(v, offsets[0]))
        } else {
            spec_walk(mem, wrap_add32(v, offsets[0]), offsets.drop_first())
        },
    }
}

/// The address dereferenced at hop `k` of a walk pending at `start`.
/// Meaningful while every earlier hop's read succeeded.
pub open spec fn hop_addr(mem: MemorySpace, start: u32, offsets: Seq<u32>, k: int) -> u32
    recommends
        0 <= k < offsets.len(),
    decreases k,
{
    if k <= 0 {
        start
    } else {
        match spec_read_u32(mem, hop_addr(mem, start, offsets, k - 1)) {
            Some(v) => wrap_add32(v, offsets[k - 1]),
            None => 0,
        }
    }
}

/// Where a step machine stands in its walk.
pub enum ResolveState {
    /// The machine needs the 32-bit value at `addr`; `idx` offsets of the
    /// chain have been consumed so far.
    Pending { addr: u32, idx: usize },
    /// The walk ended with the final address `addr`.
    Resolved { addr: u32 },
    /// A hop's read failed; no address will be produced.
    Failed,
}

/// The pointer-chain walk as a step machine, for callers that read the
/// target's memory incrementally: ask [`Self::next_read`] for the address
/// the walk needs, perform that read, and hand the outcome (or the
/// failure) to [`Self::supply`].
pub struct PointerChainResolver {
    pub offsets: Vec<u32>,
    pub state: ResolveState,
}

impl PointerChainResolver {
    /// A machine whose chain cursor is still inside its chain.
    pub open spec fn wf(self) -> bool {
        self.state matches ResolveState::Pending { idx, .. } ==> idx < self.offsets@.len()
    }

    /// The final address of the walk this machine is running, against a
    /// memory in which its pending reads are answered by `mem`.
    pub open spec fn continuation(self, mem: MemorySpace) -> Option<u32> {
        match self.state {
            ResolveState::Pending { addr, idx } => spec_walk(
                mem,
                addr,
                self.offsets@.skip(idx as int),
            ),
            ResolveState::Resolved { addr } => Some(addr),
            ResolveState::Failed => None,
        }
    }

    /// Starts a walk at `base + static_offset` over `offsets`.
    ///
    /// With an empty chain the start address is the result at once and no
    /// read is ever requested.
    pub fn begin(base: u32, static_offset: u32, offsets: Vec<u32>) -> (r: PointerChainResolver)
        ensures
            r.wf(),
            r.offsets@ == offsets@,
            offsets@.len() == 0 ==> r.state == (ResolveState::Resolved {
                addr: wrap_add32(base, static_offset),
            }),
            offsets@.len() > 0 ==> r.state == (ResolveState::Pending {
                addr: wrap_add32(base, static_offset),
                idx: 0usize,
            }),
    {
        let start = base.wrapping_add(static_offset);
        if offsets.len() == 0 {
            PointerChainResolver { offsets, state: ResolveState::Resolved { addr: start } }
        } else {
            PointerChainResolver { offsets, state: ResolveState::Pending { addr: start, idx: 0 } }
        }
    }

    /// Whether the walk still needs a read before it can finish.
    pub fn in_progress(&self) -> (r: bool)
        ensures
            r == (self.state matches ResolveState::Pending { .. }),
    {
        match self.state {
            ResolveState::Pending { .. } => true,
            _ => false,
        }
    }

    /// The address whose 32-bit value the walk needs next, if any.
    pub fn next_read(&self) -> (r: Option<u32>)
        ensures
            r == (match self.state {
                ResolveState::Pending { addr, .. } => Some(addr),
                _ => None,
            }),
    {
        match self.state {
            ResolveState::Pending { addr, .. } => Some(addr),
            _ => None,
        }
    }

    /// Hands the machine the outcome of the read it asked for: the value
    /// read, or `None` for a failed read, which aborts the whole walk.
    pub fn supply(&mut self, value: Option<u32>)
        requires
            old(self).wf(),
            old(self).state matches ResolveState::Pending { .. },
        ensures
            final(self).wf(),
            final(self).offsets == old(self).offsets,
            old(self).state matches ResolveState::Pending { addr, idx } ==> match value {
                None => final(self).state == ResolveState::Failed,
                Some(v) => if idx + 1 == old(self).offsets@.len() {
                    final(self).state == (ResolveState::Resolved {
                        addr: wrap_add32(v, old(self).offsets@[idx as int]),
                    })
                } else {
                    final(self).state == (ResolveState::Pending {
                        addr: wrap_add32(v, old(self).offsets@[idx as int]),
                        idx: (idx + 1) as usize,
                    })
                },
            },
    {
        let idx: usize = match self.state {
            ResolveState::Pending { idx, .. } => idx,
            _ => 0,
        };
        let n: usize = self.offsets.len();
        proof {
            assert(idx < n);
        }
        match value {
            None => {
                self.state = ResolveState::Failed;
            },
            Some(v) => {
                let next = v.wrapping_add(self.offsets[idx]);
                if idx + 1 == n {
                    self.state = ResolveState::Resolved { addr: next };
                } else {
                    self.state = ResolveState::Pending { addr: next, idx: idx + 1 };
                }
            },
        }
    }

    /// The final address, once the walk has resolved.
    pub fn address(&self) -> (r: Option<u32>)
        ensures
            r == (match self.state {
                ResolveState::Resolved { addr } => Some(addr),
                _ => None,
            }),
    {
        match self.state {
            ResolveState::Resolved { addr } => Some(addr),
            _ => None,
        }
    }
}

/// An owned copy of a chain of offsets.
fn copy_offsets(v: &Vec<u32>) -> (r: Vec<u32>)
    ensures
        r@ == v@,
{
    let mut r: Vec<u32> = Vec::new();
    let mut i: usize = 0;
    while i < v.len()
        invariant
            i <= v@.len(),
            r@ == v@.subrange(0, i as int),
        decreases v@.len() - i,
    {
        r.push(v[i]);
        proof {
            assert(r@ =~= v@.subrange(0, i + 1));
        }
        i = i + 1;
    }
    proof {
        assert(v@.subrange(0, v@.len() as int) =~= v@);
    }
    r
}

/// Walks a whole pointer chain against a captured memory.
///
/// With an empty chain the result is exactly `base + static_offset`
/// (wrapping), with no dereference performed.  Any failed hop makes the
/// whole resolution fail with [`CoreError::MemoryReadFailure`]; no address
/// is produced in that case.
pub fn resolve(mem: &MemorySpace, base: u32, static_offset: u32, offsets: &Vec<u32>) -> (r: Result<
    u32,
    CoreError,
>)
    ensures
        spec_resolve(*mem, wrap_add32(base, static_offset), offsets@) matches Some(a) ==> r
            == Ok::<u32, CoreError>(a),
        spec_resolve(*mem, wrap_add32(base, static_offset), offsets@) is None ==> r == Err::<
            u32,
            CoreError,
        >(CoreError::MemoryReadFailure),
        offsets@.len() == 0 ==> r == Ok::<u32, CoreError>(wrap_add32(base, static_offset)),
{
    let ghost start = wrap_add32(base, static_offset);
    let chain_len: usize = offsets.len();
    let mut w = PointerChainResolver::begin(base, static_offset, copy_offsets(offsets));
    proof {
        if offsets@.len() > 0 {
            assert(w.offsets@.skip(0) =~= offsets@);
        }
    }
    while w.in_progress()
        invariant
            w.wf(),
            w.offsets@ == offsets@,
            offsets@.len() == chain_len,
            w.continuation(*mem) == spec_resolve(*mem, start, offsets@),
        decreases (match w.state {
            ResolveState::Pending { idx, .. } => offsets@.len() - idx + 1,
            _ => 0int,
        }),
    {
        let addr = match w.next_read() {
            Some(a) => a,
            None => 0,
        };
        let ghost before = w;
        let value = mem.read_u32(addr);
        w.supply(value);
        proof {
            if let ResolveState::Pending { addr: paddr, idx } = before.state {
                let rest = before.offsets@.skip(idx as int);
                assert(rest[0] == offsets@[idx as int]);
                assert(spec_walk(*mem, paddr, rest) == (match spec_read_u32(*mem, paddr) {
                    None => None::<u32>,
                    Some(v) => if rest.len() <= 1 {
                        Some(wrap_add32(v, rest[0]))
                    } else {
                        spec_walk(*mem, wrap_add32(v, rest[0]), rest.drop_first())
                    },
                }));
                if value is Some && idx + 1 < offsets@.len() {
                    assert(rest.drop_first() =~= offsets@.skip(idx + 1));
                }
            }
        }
    }
    match w.address() {
        Some(a) => Ok(a),
        None => Err(CoreError::MemoryReadFailure),
    }
}

/// A failed hop aborts the whole resolution: if every hop before `k`
/// dereferenced successfully and the read at hop `k` fails, the walk
/// produces no address at all.
pub proof fn lemma_failed_hop_aborts_resolution(
    mem: MemorySpace,
    start: u32,
    offsets: Seq<u32>,
    k: int,
)
    requires
        0 <= k < offsets.len(),
        forall|j: int|
            0 <= j < k ==> spec_read_u32(mem, #[trigger] hop_addr(mem, start, offsets, j))
                is Some,
        spec_read_u32(mem, hop_addr(mem, start, offsets, k)) is None,
    ensures
        spec_resolve(mem, start, offsets) is None,
    decreases k,
{
    if k == 0 {
        assert(hop_addr(mem, start, offsets, 0) == start);
    } else {
        let v = spec_read_u32(mem, start)->0;
        let start1 = wrap_add32(v, offsets[0]);
        let offsets1 = offsets.drop_first();
        assert(spec_read_u32(mem, hop_addr(mem, start, offsets, 0)) is Some);
        assert(offsets.len() > 1) by {
            if offsets.len() == 1 {
                assert(k < 1);
            }
        }
        assert forall|j: int| 0 <= j < k - 1 implies spec_read_u32(
            mem,
            #[trigger] hop_addr(mem, start1, offsets1, j),
        ) is Some by {
            lemma_hop_shift(mem, start, offsets, j);
        }
        lemma_hop_shift(mem, start, offsets, k - 1);
        lemma_failed_hop_aborts_resolution(mem, start1, offsets1, k - 1);
    }
}

/// Hop `j` of the walk that remains after a successful first dereference
/// is hop `j + 1` of the original walk.
proof fn lemma_hop_shift(mem: MemorySpace, start: u32, offsets: Seq<u32>, j: int)
    requires
        offsets.len() > 1,
        0 <= j < offsets.len() - 1,
        spec_read_u32(mem, start) is Some,
    ensures
        hop_addr(
            mem,
            wrap_add32(spec_read_u32(mem, start)->0, offsets[0]),
            offsets.drop_first(),
            j,
        ) == hop_addr(mem, start, offsets, j + 1),
    decreases j,
{
    let v = spec_read_u32(mem, start)->0;
    let start1 = wrap_add32(v, offsets[0]);
    let offsets1 = offsets.drop_first();
    if j == 0 {
        assert(hop_addr(mem, start1, offsets1, 0) == start1);
        assert(hop_addr(mem, start, offsets, 0) == start);
        assert(hop_addr(mem, start, offsets, 1) == wrap_add32(v, offsets[0]));
    } else {
        lemma_hop_shift(mem, start, offsets, j - 1);
        assert(offsets1[j - 1] == offsets[j]);
    }
}

} // verus!
