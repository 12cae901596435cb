//! Arena handles, scoped borrowing, and the active-arena register.
//!
//! Embedding-side functions receive the arena they allocate from as an
//! explicit argument.  The process-wide register that names the
//! "current" arena exists only as a compatibility seam for the host's
//! own entry points, which read it implicitly; `make_current` is the
//! single, scope-bounded bridge between the two styles.

use vstd::prelude::*;

use crate::bridge::SignalPayload;
use crate::datum::Datum;
use crate::host::HostState;

verus! {

/// A validated, non-owning reference to one arena node.
///
/// Holding one across a reset or delete of its referent is the
/// caller's documented obligation to avoid; the handle itself carries
/// no lifetime.
#[derive(Clone, Copy, Debug, PartialEq, Eq, Structural)]
pub struct RawMemCtx {
    pub idx: usize,
}

impl RawMemCtx {
    /// Builds a handle from a raw arena reference.  The caller asserts
    /// the arena is valid and stays unreset for the handle's whole
    /// use; the debug-build tag check of the underlying interface is
    /// the precondition here.
    pub fn from_raw(host: &HostState, idx: usize) -> (r: RawMemCtx)
        requires
            host.spec_arena_is_valid(idx),
        ensures
            r.idx == idx,
    {
        RawMemCtx { idx }
    }

    /// Requests `size` bytes from this arena's allocation strategy.
    /// On the host's own allocation failure the host raises its abrupt
    /// signal, which the error bridge must already be set to
    /// intercept — this handle does not handle that itself.
    pub fn allocate(&self, host: &mut HostState, size: usize) -> (r: Result<usize, SignalPayload>)
        requires
            old(host).wf(),
            old(host).spec_arena_is_valid(self.idx),
        ensures
            HostState::zero_alloc_post(*old(host), *final(host), self.idx, size, r),
    {
        host.request_allocation(self.idx, size)
    }
}

/// Checks an arena reference against the recognized live-arena kinds.
pub fn memory_context_is_valid(host: &HostState, idx: usize) -> (r: bool)
    ensures
        r == host.spec_arena_is_valid(idx),
{
    host.arena_is_valid(idx)
}

/// Names the distinguished arena a reference points at, if any.
pub fn identify_global(host: &HostState, idx: usize) -> (r: Option<&'static str>)
    ensures
        idx == host.top ==> (r matches Some(s) && s@ == "TopMemoryContext"@),
        idx != host.top && idx == host.current ==> (r matches Some(s) && s@
            == "CurrentMemoryContext"@),
        idx != host.top && idx != host.current ==> r is None,
{
    if idx == host.top {
        Some("TopMemoryContext")
    } else if idx == host.current {
        Some("CurrentMemoryContext")
    } else {
        None
    }
}

/// A scoped borrowed context: an arena handle obtained from checked
/// code.  Only the two distinguished arenas — the top-level permanent
/// one and the currently active one — may produce one without a
/// caller-side promise; any other arena takes the escape hatch, whose
/// promise is its precondition.
#[derive(Clone, Copy, Debug)]
pub struct MemCx {
    pub raw: RawMemCtx,
}

impl MemCx {
    pub open spec fn idx(self) -> usize {
        self.raw.idx
    }

    /// Borrows the arena the active-arena register names.
    pub fn borrow_current(host: &HostState) -> (r: MemCx)
        requires
            host.wf(),
        ensures
            r.idx() == host.current,
            host.spec_arena_is_valid(r.idx()),
    {
        MemCx { raw: RawMemCtx { idx: host.current_arena() } }
    }

    /// Borrows the top-level permanent arena.
    pub fn borrow_top(host: &HostState) -> (r: MemCx)
        requires
            host.wf(),
        ensures
            r.idx() == host.top,
            host.spec_arena_is_valid(r.idx()),
    {
        MemCx { raw: RawMemCtx { idx: host.top } }
    }

    /// Escape hatch for any other arena: the caller promises that the
    /// arena is valid and that no reset or delete races the borrow.
    pub fn from_raw_unchecked(host: &HostState, raw: RawMemCtx) -> (r: MemCx)
        requires
            host.spec_arena_is_valid(raw.idx),
        ensures
            r.idx() == raw.idx,
    {
        MemCx { raw }
    }

    /// Requests `size` bytes from the borrowed arena.
    pub fn allocate(&self, host: &mut HostState, size: usize) -> (r: Result<usize, SignalPayload>)
        requires
            old(host).wf(),
            old(host).spec_arena_is_valid(self.idx()),
        ensures
            HostState::zero_alloc_post(*old(host), *final(host), self.idx(), size, r),
    {
        self.raw.allocate(host, size)
    }
}

/// One call into a host entry point.  These are the calls that read
/// the active-arena register implicitly; everything the embedding side
/// computes takes its arena as an explicit argument instead.
#[derive(Clone, Copy, Debug, PartialEq, Eq, Structural)]
pub enum HostCall {
    /// Request this many zeroed bytes from the register's arena.
    Allocate { size: usize },
    /// Hand one allocation back.
    Reclaim { block: usize },
}

impl HostCall {
    /// What a call needs from the state it runs against.
    pub open spec fn requires_on(self, host: HostState) -> bool {
        match self {
            HostCall::Allocate { size } => true,
            HostCall::Reclaim { block } => host.spec_block_is_live(block),
        }
    }
}

/// What one host entry point call, run while the register names
/// `arena`, does to the blocks and the budget.  The register and the
/// hierarchy themselves are left to the callers' own contracts.
pub open spec fn host_call_post(
    pre: HostState,
    post: HostState,
    arena: usize,
    call: HostCall,
    r: Result<Datum, SignalPayload>,
) -> bool {
    match call {
        HostCall::Allocate { size } => {
            &&& (r is Ok <==> size <= pre.budget)
            &&& (r matches Ok(d) ==> {
                &&& d.value == pre.blocks@.len()
                &&& post.blocks@.len() == pre.blocks@.len() + 1
                &&& forall|j: int| 0 <= j < pre.blocks@.len() ==> post.blocks@[j] == pre.blocks@[j]
                &&& post.blocks@[d.value as int].arena == arena
                &&& post.blocks@[d.value as int].live
                &&& post.blocks@[d.value as int].bytes@.len() == size
                &&& forall|k: int| 0 <= k < size ==> post.blocks@[d.value as int].bytes@[k] == 0u8
                &&& post.budget == pre.budget - size
            })
            &&& (r matches Err(p) ==> post.blocks@ == pre.blocks@ && post.budget == pre.budget
                && p.code == crate::bridge::ERRCODE_OUT_OF_MEMORY)
        },
        HostCall::Reclaim { block } => {
            &&& r == Ok::<Datum, SignalPayload>(Datum { value: 0 })
            &&& post.blocks@.len() == pre.blocks@.len()
            &&& forall|j: int|
                0 <= j < pre.blocks@.len() && j != block ==> post.blocks@[j] == pre.blocks@[j]
            &&& !post.blocks@[block as int].live
            &&& post.budget == pre.budget
        },
    }
}

/// Performs one host entry point call against the arena the register
/// currently names.
pub fn perform(host: &mut HostState, call: HostCall) -> (r: Result<Datum, SignalPayload>)
    requires
        old(host).wf(),
        call.requires_on(*old(host)),
    ensures
        final(host).wf(),
        final(host).arenas@ == old(host).arenas@,
        final(host).top == old(host).top,
        final(host).current == old(host).current,
        host_call_post(*old(host), *final(host), old(host).current, call, r),
{
    match call {
        HostCall::Allocate { size } => {
            let arena = host.current_arena();
            match host.request_allocation(arena, size) {
                Ok(b) => Ok(Datum { value: b as u64 }),
                Err(p) => Err(p),
            }
        },
        HostCall::Reclaim { block } => {
            host.request_reclamation(block);
            Ok(Datum { value: 0 })
        },
    }
}

/// Swaps the active-arena register to `arena`, performs one host call
/// under it, and restores the register's previous value — whether the
/// call returned normally or raised the host's signal.
pub fn make_current(host: &mut HostState, arena: usize, call: HostCall) -> (r: Result<
    Datum,
    SignalPayload,
>)
    requires
        old(host).wf(),
        old(host).spec_arena_is_valid(arena),
        call.requires_on(*old(host)),
    ensures
        final(host).wf(),
        final(host).current == old(host).current,
        final(host).arenas@ == old(host).arenas@,
        final(host).top == old(host).top,
        host_call_post(*old(host), *final(host), arena, call, r),
{
    let saved = host.current_arena();
    host.set_current_arena(arena);
    let r = perform(host, call);
    host.set_current_arena(saved);
    r
}

} // verus!
