//! Deterministic ownership of host-allocated values.
//!
//! An `Owned<T>` couples a value with the arena and allocation that
//! back it.  Single ownership makes the one reclamation call happen
//! exactly once: releasing consumes the wrapper, and the only way to
//! keep the value past that is to disarm the wrapper explicitly at a
//! boundary where the host itself takes over reclamation.

use vstd::prelude::*;

use crate::bridge::BridgeError;
use crate::host::HostState;
use crate::mem::RawMemCtx;

verus! {

/// A value together with the arena handle that must eventually reclaim
/// its backing allocation.
#[derive(Debug)]
pub struct Owned<T> {
    pub value: T,
    pub arena: RawMemCtx,
    pub block: usize,
}

impl<T> Owned<T> {
    /// The wrapper claims backing storage from its arena in `host`.
    pub open spec fn claims(self, host: HostState) -> bool {
        &&& (self.block as int) < host.blocks@.len()
        &&& host.blocks@[self.block as int].arena == self.arena.idx
    }

    /// The claim is still good: the arena is valid and the backing
    /// allocation is live.
    pub open spec fn valid_in(self, host: HostState) -> bool {
        &&& self.claims(host)
        &&& host.spec_arena_is_valid(self.arena.idx)
        &&& host.blocks@[self.block as int].live
    }

    /// Pairs a value with the arena and allocation that back it.
    pub fn new(value: T, arena: RawMemCtx, block: usize) -> (r: Owned<T>)
        ensures
            r.value == value,
            r.arena == arena,
            r.block == block,
    {
        Owned { value, arena, block }
    }

    /// Checked access to the value: the debug-mode validity check.
    /// Once the host has reset or deleted the arena this wrapper
    /// claims storage from, the check reports the violation instead of
    /// touching freed memory.
    pub fn get<'a>(&'a self, host: &HostState) -> (r: Result<&'a T, BridgeError>)
        ensures
            r is Ok <==> self.valid_in(*host),
            r matches Ok(v) ==> v == &self.value,
            r is Err ==> r == Err::<&'a T, BridgeError>(BridgeError::InvariantViolation),
    {
        if self.block < host.blocks.len() && host.block_is_live(self.block)
            && host.blocks[self.block].arena == self.arena.idx && host.arena_is_valid(
            self.arena.idx,
        ) {
            Ok(&self.value)
        } else {
            Err(BridgeError::InvariantViolation)
        }
    }

    /// Releases the wrapper: the value's own teardown runs (it is
    /// dropped), then exactly one reclamation call goes to the arena.
    /// Releasing after the backing storage is gone is the caller's
    /// documented obligation to avoid, excluded here.
    pub fn release(self, host: &mut HostState)
        requires
            old(host).wf(),
            self.valid_in(*old(host)),
        ensures
            final(host).wf(),
            final(host).arenas@ == old(host).arenas@,
            final(host).top == old(host).top,
            final(host).current == old(host).current,
            final(host).budget == old(host).budget,
            final(host).blocks@.len() == old(host).blocks@.len(),
            forall|j: int|
                0 <= j < old(host).blocks@.len() && j != self.block ==> final(host).blocks@[j]
                    == old(host).blocks@[j],
            !final(host).blocks@[self.block as int].live,
    {
        host.request_reclamation(self.block);
    }

    /// Disarms the wrapper at a boundary where the host itself takes
    /// over reclamation: hands back the value together with the arena
    /// and allocation that must eventually be reclaimed.
    pub fn into_raw(self) -> (r: (T, RawMemCtx, usize))
        ensures
            r.0 == self.value,
            r.1 == self.arena,
            r.2 == self.block,
    {
        (self.value, self.arena, self.block)
    }

    /// Re-wraps what `into_raw` handed out.  The caller promises that
    /// no other owner of the allocation exists.
    pub fn from_raw(value: T, arena: RawMemCtx, block: usize) -> (r: Owned<T>)
        ensures
            r.value == value,
            r.arena == arena,
            r.block == block,
    {
        Owned::new(value, arena, block)
    }
}

/// After the host resets or deletes an arena, a wrapper still claiming
/// backing storage from anywhere inside that subtree is no longer
/// valid: its checked access reports an invariant violation rather
/// than reaching freed memory.
pub proof fn lemma_sweep_revokes_owned<T>(
    pre: HostState,
    post: HostState,
    target: usize,
    kill_root: bool,
    o: Owned<T>,
)
    requires
        pre.wf(),
        HostState::sweep_rel(pre, post, target, kill_root),
        o.claims(pre),
        pre.in_subtree(target as int, o.arena.idx as int),
    ensures
        !o.valid_in(post),
{
    assert(post.blocks@[o.block as int].live == (pre.blocks@[o.block as int].live
        && !pre.in_subtree(target as int, pre.blocks@[o.block as int].arena as int)));
}

} // verus!
