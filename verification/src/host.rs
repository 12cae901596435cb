//! Model of the host engine's arena hierarchy and of the calls the
//! bridge makes into it.
//!
//! The host organizes memory into a tree of arena allocators.  Arenas
//! are created, reparented, reset and deleted exclusively by the host;
//! the bridge only observes their validity, requests allocations and
//! reclamations, and reads the process-wide register naming the arena
//! that implicit allocation calls target.

use vstd::prelude::*;

use crate::bridge::{SignalPayload, ERRCODE_OUT_OF_MEMORY};

verus! {

/// Allocation-strategy tag of one arena node.  A node is valid exactly
/// when its tag is one of the recognized live kinds; resetting or
/// deleting retags the swept nodes as freed.
#[derive(Clone, Copy, Debug, PartialEq, Eq, Structural)]
pub enum ArenaTag {
    AllocSet,
    Slab,
    Generation,
    Freed,
}

pub open spec fn tag_is_live(tag: ArenaTag) -> bool {
    tag is AllocSet || tag is Slab || tag is Generation
}

/// One node of the arena hierarchy as the bridge observes it: its tag
/// and its parent link.  A parent always precedes its children in the
/// host's node table.
#[derive(Clone, Copy, Debug)]
pub struct ArenaNode {
    pub tag: ArenaTag,
    pub parent: Option<usize>,
}

/// One allocation the host handed out: the arena that owns it, its
/// content, and whether it is still live (neither reclaimed nor swept
/// by a reset or delete of its arena).
#[derive(Debug)]
pub struct Block {
    pub arena: usize,
    pub bytes: Vec<u8>,
    pub live: bool,
}

/// The host engine's memory state as the bridge observes it: the arena
/// hierarchy, every allocation handed out so far, the top-level
/// permanent arena, the active-arena register, and how many more bytes
/// the host will hand out before raising its out-of-memory signal.
#[derive(Debug)]
pub struct HostState {
    pub arenas: Vec<ArenaNode>,
    pub blocks: Vec<Block>,
    pub top: usize,
    pub current: usize,
    pub budget: u64,
}

impl HostState {
    /// Node `i` lies in the subtree rooted at `root`, following parent
    /// links upward.
    pub open spec fn in_subtree(self, root: int, i: int) -> bool
        decreases i,
    {
        if i == root {
            true
        } else if 0 <= i < self.arenas@.len() {
            match self.arenas@[i].parent {
                Some(p) => {
                    if p < i {
                        self.in_subtree(root, p as int)
                    } else {
                        false
                    }
                },
                None => false,
            }
        } else {
            false
        }
    }

    /// Well-formedness the host maintains: the two distinguished arenas
    /// exist and are valid, parents precede children, and every block
    /// names an existing arena.
    pub open spec fn wf(self) -> bool {
        &&& self.arenas@.len() > 0
        &&& (self.top as int) < self.arenas@.len()
        &&& (self.current as int) < self.arenas@.len()
        &&& tag_is_live(self.arenas@[self.top as int].tag)
        &&& tag_is_live(self.arenas@[self.current as int].tag)
        &&& forall|i: int|
            0 <= i < self.arenas@.len() ==> ((#[trigger] self.arenas@[i]).parent matches Some(p)
                ==> (p as int) < i)
        &&& forall|b: int|
            0 <= b < self.blocks@.len() ==> ((#[trigger] self.blocks@[b]).arena as int)
                < self.arenas@.len()
    }

    /// An arena reference is valid exactly when it names a node whose
    /// tag is one of the recognized live kinds.
    pub open spec fn spec_arena_is_valid(self, a: usize) -> bool {
        (a as int) < self.arenas@.len() && tag_is_live(self.arenas@[a as int].tag)
    }

    /// A block reference is valid exactly when it names a live block.
    pub open spec fn spec_block_is_live(self, b: usize) -> bool {
        (b as int) < self.blocks@.len() && self.blocks@[b as int].live
    }

    /// The validity check the bridge performs before trusting an arena
    /// reference.
    pub fn arena_is_valid(&self, a: usize) -> (r: bool)
        ensures
            r == self.spec_arena_is_valid(a),
    {
        a < self.arenas.len() && tag_live(self.arenas[a].tag)
    }

    /// Whether one allocation is still live.
    pub fn block_is_live(&self, b: usize) -> (r: bool)
        ensures
            r == self.spec_block_is_live(b),
    {
        b < self.blocks.len() && self.blocks[b].live
    }

    /// Content of one live allocation.
    pub fn block_bytes(&self, b: usize) -> (r: &Vec<u8>)
        requires
            self.spec_block_is_live(b),
        ensures
            r@ == self.blocks@[b as int].bytes@,
    {
        &self.blocks[b].bytes
    }

    /// The state the host establishes before any call enters the
    /// bridge: a single permanent top-level arena, which is also the
    /// active one, and a given allocation budget.
    pub fn boot(budget: u64) -> (r: HostState)
        ensures
            r.wf(),
            r.arenas@.len() == 1,
            r.arenas@[0].tag is AllocSet,
            r.arenas@[0].parent is None,
            r.blocks@.len() == 0,
            r.top == 0,
            r.current == 0,
            r.budget == budget,
    {
        let mut arenas: Vec<ArenaNode> = Vec::new();
        arenas.push(ArenaNode { tag: ArenaTag::AllocSet, parent: None });
        HostState { arenas, blocks: Vec::new(), top: 0, current: 0, budget }
    }

    /// The host creates a child arena under `parent`.  The bridge never
    /// creates arenas for its own purposes; the model needs this to
    /// observe the hierarchies the host builds.
    pub fn create_arena(&mut self, parent: usize, tag: ArenaTag) -> (a: usize)
        requires
            old(self).wf(),
            old(self).spec_arena_is_valid(parent),
            tag_is_live(tag),
        ensures
            final(self).wf(),
            a == old(self).arenas@.len(),
            final(self).arenas@.len() == old(self).arenas@.len() + 1,
            forall|i: int|
                0 <= i < old(self).arenas@.len() ==> final(self).arenas@[i] == old(
                    self,
                ).arenas@[i],
            final(self).arenas@[a as int].tag == tag,
            final(self).arenas@[a as int].parent == Some(parent),
            final(self).spec_arena_is_valid(a),
            final(self).blocks@ == old(self).blocks@,
            final(self).top == old(self).top,
            final(self).current == old(self).current,
            final(self).budget == old(self).budget,
    {
        let a = self.arenas.len();
        self.arenas.push(ArenaNode { tag, parent: Some(parent) });
        a
    }

    /// Reads the active-arena register (the arena implicit allocation
    /// calls target).
    pub fn current_arena(&self) -> (a: usize)
        ensures
            a == self.current,
    {
        self.current
    }

    /// Writes the active-arena register.  Pointing it at an invalid
    /// arena is host-side undefined behavior, excluded here.
    pub fn set_current_arena(&mut self, a: usize)
        requires
            old(self).wf(),
            old(self).spec_arena_is_valid(a),
        ensures
            final(self).wf(),
            final(self).current == a,
            final(self).arenas@ == old(self).arenas@,
            final(self).blocks@ == old(self).blocks@,
            final(self).top == old(self).top,
            final(self).budget == old(self).budget,
    {
        self.current = a;
    }

    /// One allocation request against `arena`, with the content written
    /// in the same step (an allocation followed by the copy that fills
    /// it).  When the request exceeds what the host will still hand
    /// out, the host raises its abrupt out-of-memory signal; an
    /// interception point must already be active to catch it.  An
    /// invalid `arena` is caller misuse, excluded here.
    pub fn alloc_bytes(&mut self, arena: usize, bytes: Vec<u8>) -> (r: Result<
        usize,
        SignalPayload,
    >)
        requires
            old(self).wf(),
            old(self).spec_arena_is_valid(arena),
        ensures
            final(self).wf(),
            final(self).arenas@ == old(self).arenas@,
            final(self).top == old(self).top,
            final(self).current == old(self).current,
            r is Ok <==> bytes@.len() <= old(self).budget,
            r matches Ok(b) ==> {
                &&& b == old(self).blocks@.len()
                &&& final(self).blocks@.len() == old(self).blocks@.len() + 1
                &&& forall|j: int|
                    0 <= j < old(self).blocks@.len() ==> final(self).blocks@[j] == old(
                        self,
                    ).blocks@[j]
                &&& final(self).blocks@[b as int].arena == arena
                &&& final(self).blocks@[b as int].live
                &&& final(self).blocks@[b as int].bytes@ == bytes@
                &&& final(self).budget == old(self).budget - bytes@.len()
            },
            r matches Err(p) ==> {
                &&& *final(self) == *old(self)
                &&& p.code == ERRCODE_OUT_OF_MEMORY
            },
    {
        if bytes.len() as u64 <= self.budget {
            self.budget = self.budget - bytes.len() as u64;
            let b = self.blocks.len();
            self.blocks.push(Block { arena, bytes, live: true });
            Ok(b)
        } else {
            Err(oom_payload())
        }
    }

    /// What one zero-filled allocation request does to the observed
    /// state: on success one fresh zeroed block of `size` bytes owned
    /// by `arena`, on refusal an out-of-memory signal with nothing
    /// changed.
    pub open spec fn zero_alloc_post(
        pre: HostState,
        post: HostState,
        arena: usize,
        size: usize,
        r: Result<usize, SignalPayload>,
    ) -> bool {
        &&& post.wf()
        &&& post.arenas@ == pre.arenas@
        &&& post.top == pre.top
        &&& post.current == pre.current
        &&& (r is Ok <==> size <= pre.budget)
        &&& (r matches Ok(b) ==> {
            &&& b == pre.blocks@.len()
            &&& post.blocks@.len() == pre.blocks@.len() + 1
            &&& forall|j: int| 0 <= j < pre.blocks@.len() ==> post.blocks@[j] == pre.blocks@[j]
            &&& post.blocks@[b as int].arena == arena
            &&& post.blocks@[b as int].live
            &&& post.blocks@[b as int].bytes@.len() == size
            &&& forall|k: int| 0 <= k < size ==> post.blocks@[b as int].bytes@[k] == 0u8
            &&& post.budget == pre.budget - size
        })
        &&& (r matches Err(p) ==> {
            &&& post == pre
            &&& p.code == ERRCODE_OUT_OF_MEMORY
        })
    }

    /// One zero-filled allocation request of `size` bytes.
    pub fn request_allocation(&mut self, arena: usize, size: usize) -> (r: Result<
        usize,
        SignalPayload,
    >)
        requires
            old(self).wf(),
            old(self).spec_arena_is_valid(arena),
        ensures
            HostState::zero_alloc_post(*old(self), *final(self), arena, size, r),
    {
        let mut zeroes: Vec<u8> = Vec::new();
        while zeroes.len() < size
            invariant
                zeroes@.len() <= size,
                forall|k: int| 0 <= k < zeroes@.len() ==> zeroes@[k] == 0u8,
            decreases size - zeroes@.len(),
        {
            zeroes.push(0u8);
        }
        self.alloc_bytes(arena, zeroes)
    }

    /// One reclamation request against a live allocation.  Reclaiming a
    /// block that is no longer live is caller misuse (the documented
    /// obligation of whoever held the pointer), excluded here.
    pub fn request_reclamation(&mut self, b: usize)
        requires
            old(self).wf(),
            old(self).spec_block_is_live(b),
        ensures
            final(self).wf(),
            final(self).arenas@ == old(self).arenas@,
            final(self).top == old(self).top,
            final(self).current == old(self).current,
            final(self).budget == old(self).budget,
            final(self).blocks@.len() == old(self).blocks@.len(),
            forall|j: int|
                0 <= j < old(self).blocks@.len() && j != b ==> final(self).blocks@[j] == old(
                    self,
                ).blocks@[j],
            !final(self).blocks@[b as int].live,
            final(self).blocks@[b as int].arena == old(self).blocks@[b as int].arena,
            final(self).blocks@[b as int].bytes@ == old(self).blocks@[b as int].bytes@,
    {
        let ghost pre = self.blocks@;
        let mut blk = self.blocks.remove(b);
        blk.live = false;
        self.blocks.insert(b, blk);
        proof {
            assert forall|j: int| 0 <= j < pre.len() && j != b implies self.blocks@[j] == pre[j] by {
                if j < b {
                } else {
                    assert(self.blocks@[j] == pre.remove(b as int)[j - 1]);
                }
            }
        }
    }
    /// How a reset or a delete changes the observed state: nodes inside
    /// the subtree rooted at `target` (the root itself only when
    /// `kill_root`) are retagged as freed, every allocation owned inside
    /// the subtree (the root's own included) stops being live, and
    /// nothing else moves.
    pub open spec fn sweep_rel(pre: HostState, post: HostState, target: usize, kill_root: bool) -> bool {
        &&& post.arenas@.len() == pre.arenas@.len()
        &&& forall|i: int|
            0 <= i < pre.arenas@.len() ==> (#[trigger] post.arenas@[i]).parent
                == pre.arenas@[i].parent
        &&& forall|i: int|
            0 <= i < pre.arenas@.len() ==> (#[trigger] post.arenas@[i]).tag == if pre.in_subtree(
                target as int,
                i,
            ) && (kill_root || i != target) {
                ArenaTag::Freed
            } else {
                pre.arenas@[i].tag
            }
        &&& post.blocks@.len() == pre.blocks@.len()
        &&& forall|b: int|
            0 <= b < pre.blocks@.len() ==> {
                &&& (#[trigger] post.blocks@[b]).arena == pre.blocks@[b].arena
                &&& post.blocks@[b].bytes@ == pre.blocks@[b].bytes@
                &&& post.blocks@[b].live == (pre.blocks@[b].live && !pre.in_subtree(
                    target as int,
                    pre.blocks@[b].arena as int,
                ))
            }
        &&& post.top == pre.top
        &&& post.current == pre.current
        &&& post.budget == pre.budget
    }

    /// Marks which nodes lie in the subtree rooted at `target`.
    fn mark_subtree(&self, target: usize) -> (dead: Vec<bool>)
        requires
            self.wf(),
            (target as int) < self.arenas@.len(),
        ensures
            dead@.len() == self.arenas@.len(),
            forall|i: int|
                0 <= i < dead@.len() ==> dead@[i] == self.in_subtree(target as int, i),
    {
        let n = self.arenas.len();
        let mut dead: Vec<bool> = Vec::new();
        while dead.len() < n
            invariant
                self.wf(),
                (target as int) < self.arenas@.len(),
                n == self.arenas@.len(),
                dead@.len() <= n,
                forall|i: int|
                    0 <= i < dead@.len() ==> dead@[i] == self.in_subtree(target as int, i),
            decreases n - dead@.len(),
        {
            let i = dead.len();
            let d = if i == target {
                true
            } else {
                match self.arenas[i].parent {
                    Some(p) => {
                        assert((p as int) < i as int);
                        dead[p]
                    },
                    None => false,
                }
            };
            dead.push(d);
        }
        dead
    }

    /// Applies a sweep of the subtree rooted at `target` to the node
    /// tags and the blocks.  `kill_root` tells whether the root node
    /// itself loses its tag (a delete) or only its allocations (a
    /// reset).
    fn sweep(&mut self, target: usize, kill_root: bool)
        requires
            old(self).wf(),
            (target as int) < old(self).arenas@.len(),
        ensures
            HostState::sweep_rel(*old(self), *final(self), target, kill_root),
    {
        let ghost pre = *self;
        let dead = self.mark_subtree(target);
        let n = self.arenas.len();
        let mut new_arenas: Vec<ArenaNode> = Vec::new();
        while new_arenas.len() < n
            invariant
                self.arenas@ == pre.arenas@,
                n == pre.arenas@.len(),
                dead@.len() == n,
                forall|i: int| 0 <= i < n ==> dead@[i] == pre.in_subtree(target as int, i),
                new_arenas@.len() <= n,
                forall|i: int|
                    0 <= i < new_arenas@.len() ==> (#[trigger] new_arenas@[i]).parent
                        == pre.arenas@[i].parent,
                forall|i: int|
                    0 <= i < new_arenas@.len() ==> (#[trigger] new_arenas@[i]).tag
                        == if pre.in_subtree(target as int, i) && (kill_root || i != target) {
                        ArenaTag::Freed
                    } else {
                        pre.arenas@[i].tag
                    },
            decreases n - new_arenas@.len(),
        {
            let i = new_arenas.len();
            let node = self.arenas[i];
            if dead[i] && (kill_root || i != target) {
                new_arenas.push(ArenaNode { tag: ArenaTag::Freed, parent: node.parent });
            } else {
                new_arenas.push(node);
            }
        }
        self.arenas = new_arenas;

        let ghost swept_arenas = self.arenas@;
        let mut new_blocks: Vec<Block> = Vec::new();
        while self.blocks.len() > 0
            invariant
                self.arenas@ == swept_arenas,
                self.arenas@.len() == pre.arenas@.len(),
                forall|i: int|
                    0 <= i < pre.arenas@.len() ==> (#[trigger] self.arenas@[i]).parent
                        == pre.arenas@[i].parent,
                forall|i: int|
                    0 <= i < pre.arenas@.len() ==> (#[trigger] self.arenas@[i]).tag
                        == if pre.in_subtree(target as int, i) && (kill_root || i != target) {
                        ArenaTag::Freed
                    } else {
                        pre.arenas@[i].tag
                    },
                self.top == pre.top,
                self.current == pre.current,
                self.budget == pre.budget,
                dead@.len() == pre.arenas@.len(),
                forall|i: int|
                    0 <= i < dead@.len() ==> dead@[i] == pre.in_subtree(target as int, i),
                new_blocks@.len() + self.blocks@.len() == pre.blocks@.len(),
                self.blocks@ =~= pre.blocks@.subrange(
                    new_blocks@.len() as int,
                    pre.blocks@.len() as int,
                ),
                forall|j: int|
                    0 <= j < pre.blocks@.len() ==> ((#[trigger] pre.blocks@[j]).arena as int)
                        < pre.arenas@.len(),
                forall|j: int|
                    0 <= j < new_blocks@.len() ==> {
                        &&& (#[trigger] new_blocks@[j]).arena == pre.blocks@[j].arena
                        &&& new_blocks@[j].bytes@ == pre.blocks@[j].bytes@
                        &&& new_blocks@[j].live == (pre.blocks@[j].live && !pre.in_subtree(
                            target as int,
                            pre.blocks@[j].arena as int,
                        ))
                    },
            decreases self.blocks@.len(),
        {
            let ghost j = new_blocks@.len() as int;
            let mut blk = self.blocks.remove(0);
            proof {
                assert(blk == pre.blocks@[j]);
            }
            if dead[blk.arena] {
                blk.live = false;
            }
            new_blocks.push(blk);
        }
        self.blocks = new_blocks;
    }

    /// The host resets an arena: every allocation in the subtree rooted
    /// at it is swept, and every descendant node (the root itself kept)
    /// is invalidated, immediately and transitively.  Host-only
    /// operation, observed by the bridge; resetting an arena that the
    /// register or the permanent arena lives under (other than the
    /// node itself) is host-side misuse, excluded here.
    pub fn reset_arena(&mut self, target: usize)
        requires
            old(self).wf(),
            old(self).spec_arena_is_valid(target),
            old(self).in_subtree(target as int, old(self).top as int) ==> old(self).top == target,
            old(self).in_subtree(target as int, old(self).current as int) ==> old(self).current
                == target,
        ensures
            final(self).wf(),
            HostState::sweep_rel(*old(self), *final(self), target, false),
    {
        self.sweep(target, false);
    }

    /// The host deletes an arena: the node and every descendant is
    /// invalidated immediately and transitively, and each of their
    /// allocations is swept.  Host-only operation, observed by the
    /// bridge; deleting an arena that holds the register or the
    /// permanent arena is host-side misuse, excluded here.
    pub fn delete_arena(&mut self, target: usize)
        requires
            old(self).wf(),
            old(self).spec_arena_is_valid(target),
            !old(self).in_subtree(target as int, old(self).top as int),
            !old(self).in_subtree(target as int, old(self).current as int),
        ensures
            final(self).wf(),
            HostState::sweep_rel(*old(self), *final(self), target, true),
    {
        self.sweep(target, true);
    }
}

/// Exec form of the tag check: the recognized live arena kinds.
pub fn tag_live(tag: ArenaTag) -> (r: bool)
    ensures
        r == tag_is_live(tag),
{
    matches!(tag, ArenaTag::AllocSet | ArenaTag::Slab | ArenaTag::Generation)
}

/// The payload of the host's out-of-memory signal.
fn oom_payload() -> (p: SignalPayload)
    ensures
        p.code == ERRCODE_OUT_OF_MEMORY,
{
    SignalPayload {
        code: ERRCODE_OUT_OF_MEMORY,
        message: "out of memory".to_owned(),
        detail: None,
        hint: None,
        location: "mcxt".to_owned(),
    }
}

} // verus!
