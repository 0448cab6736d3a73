//! Allocation of signaling identifiers and dynamic channel identifiers.
//!
//! One allocator belongs to one signaling entity and is shared by every
//! channel multiplexed on it, so identifiers and CIDs are unique across those
//! channels and not merely within one channel's own history.

use vstd::prelude::*;

verus! {

/// First channel identifier of the dynamic range.
pub const DYNAMIC_CID_FIRST: u16 = 0x0040;

/// Last channel identifier of the dynamic range.
pub const DYNAMIC_CID_LAST: u16 = 0xffff;

/// The signaling identifier that follows `id` in the cycle 1..=255.
pub open spec fn sig_id_after(id: u8) -> u8 {
    if id == 0xff { 1 } else { (id + 1) as u8 }
}

/// The channel identifier that follows `cid` in the cycle 0x0040..=0xFFFF.
pub open spec fn cid_after(cid: u16) -> u16 {
    if cid == 0xffff { DYNAMIC_CID_FIRST } else { (cid + 1) as u16 }
}

/// The `k`-th signaling identifier handed out by an allocator whose next
/// identifier is `start` (counting from 0).
pub open spec fn nth_sig_id(start: u8, k: nat) -> u8
    decreases k,
{
    if k == 0 { start } else { sig_id_after(nth_sig_id(start, (k - 1) as nat)) }
}

/// The `k`-th channel identifier handed out by an allocator whose next
/// CID is `start` (counting from 0).
pub open spec fn nth_cid(start: u16, k: nat) -> u16
    decreases k,
{
    if k == 0 { start } else { cid_after(nth_cid(start, (k - 1) as nat)) }
}

/// Number of distinct signaling identifiers in one cycle.
pub const SIG_ID_CYCLE: u16 = 255;

/// Number of distinct dynamic CIDs in one cycle.
pub const CID_CYCLE: u32 = 0xffc0;

/// From any valid starting identifier, the `k`-th identifier handed out is
/// `((start - 1 + k) mod 255) + 1`: the values run 1, 2, ..., 255 and wrap to 1,
/// and 0 never appears.
pub proof fn lemma_signal_id_cycle(start: u8, k: nat)
    requires
        start != 0,
    ensures
        nth_sig_id(start, k) as int == (start - 1 + k) % (SIG_ID_CYCLE as int) + 1,
        nth_sig_id(start, k) != 0,
    decreases k,
{
    if k > 0 {
        lemma_signal_id_cycle(start, (k - 1) as nat);
    }
}

/// From any CID in the dynamic range, the `k`-th CID handed out is
/// `0x0040 + ((start - 0x0040 + k) mod 0xFFC0)`: the values run up to 0xFFFF and
/// wrap to 0x0040, and none lies below 0x0040.
pub proof fn lemma_local_cid_cycle(start: u16, k: nat)
    requires
        start >= DYNAMIC_CID_FIRST,
    ensures
        nth_cid(start, k) as int == DYNAMIC_CID_FIRST + (start - DYNAMIC_CID_FIRST + k) % (
        CID_CYCLE as int),
        nth_cid(start, k) >= DYNAMIC_CID_FIRST,
    decreases k,
{
    if k > 0 {
        lemma_local_cid_cycle(start, (k - 1) as nat);
    }
}

/// Identifiers handed out by one allocator are pairwise distinct within any
/// window of 255 successive allocations, whichever channels made the calls:
/// channels that share an allocator draw from one sequence, so among N
/// channels taking K identifiers each (N * K <= 255) no two receive the same
/// identifier.
pub proof fn lemma_signal_ids_unique(start: u8, i: nat, j: nat)
    requires
        start != 0,
        i < j,
        j < i + SIG_ID_CYCLE,
    ensures
        nth_sig_id(start, i) != nth_sig_id(start, j),
{
    lemma_signal_id_cycle(start, i);
    lemma_signal_id_cycle(start, j);
}

/// Local CIDs handed out by one allocator are pairwise distinct within any
/// window of 0xFFC0 successive allocations, whichever channels made the calls.
pub proof fn lemma_local_cids_unique(start: u16, i: nat, j: nat)
    requires
        start >= DYNAMIC_CID_FIRST,
        i < j,
        j < i + CID_CYCLE,
    ensures
        nth_cid(start, i) != nth_cid(start, j),
{
    lemma_local_cid_cycle(start, i);
    lemma_local_cid_cycle(start, j);
}

/// Hands out signaling identifiers and dynamic local CIDs.
#[derive(Debug)]
pub struct IdAllocator {
    next_sig: u8,
    next_cid: u16,
}

/// What an allocator will hand out next.
pub struct AllocatorView {
    /// The identifier that the next call of `next_signal_id` returns.
    pub next_sig: u8,
    /// The CID that the next call of `next_local_cid` returns.
    pub next_cid: u16,
}

impl AllocatorView {
    /// Identifiers are never 0 and CIDs never fall below the dynamic range.
    pub open spec fn wf(self) -> bool {
        &&& self.next_sig != 0
        &&& self.next_cid >= DYNAMIC_CID_FIRST
    }
}

impl View for IdAllocator {
    type V = AllocatorView;

    closed spec fn view(&self) -> AllocatorView {
        AllocatorView { next_sig: self.next_sig, next_cid: self.next_cid }
    }
}

impl IdAllocator {
    /// Identifiers are never 0 and CIDs never fall below the dynamic range.
    pub open spec fn wf(&self) -> bool {
        self@.wf()
    }

    /// A fresh allocator: the first identifier is 1, the first CID 0x0040.
    pub fn new() -> (r: IdAllocator)
        ensures
            r.wf(),
            r@.next_sig == 1,
            r@.next_cid == DYNAMIC_CID_FIRST,
    {
        IdAllocator { next_sig: 1, next_cid: DYNAMIC_CID_FIRST }
    }

    /// Returns the next signaling identifier of the cycle 1, 2, ..., 255, 1, ...
    pub fn next_signal_id(&mut self) -> (r: u8)
        requires
            old(self).wf(),
        ensures
            final(self).wf(),
            r == old(self)@.next_sig,
            r != 0,
            final(self)@.next_sig == sig_id_after(r),
            final(self)@.next_cid == old(self)@.next_cid,
    {
        let id = self.next_sig;
        if id == 0xff {
            self.next_sig = 1;
        } else {
            self.next_sig = id + 1;
        }
        id
    }

    /// Returns the next local CID of the cycle 0x0040, 0x0041, ..., 0xFFFF, 0x0040, ...
    pub fn next_local_cid(&mut self) -> (r: u16)
        requires
            old(self).wf(),
        ensures
            final(self).wf(),
            r == old(self)@.next_cid,
            DYNAMIC_CID_FIRST <= r,
            final(self)@.next_cid == cid_after(r),
            final(self)@.next_sig == old(self)@.next_sig,
    {
        let cid = self.next_cid;
        if cid == DYNAMIC_CID_LAST {
            self.next_cid = DYNAMIC_CID_FIRST;
        } else {
            self.next_cid = cid + 1;
        }
        cid
    }

    /// The identifier that the next call of `next_signal_id` returns.
    pub fn peek_signal_id(&self) -> (r: u8)
        ensures
            r == self@.next_sig,
    {
        self.next_sig
    }

    /// The CID that the next call of `next_local_cid` returns.
    pub fn peek_local_cid(&self) -> (r: u16)
        ensures
            r == self@.next_cid,
    {
        self.next_cid
    }
}

} // verus!
