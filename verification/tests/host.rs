use pg_bridge::host::{ArenaTag, HostState};

#[test]
fn boot_establishes_one_valid_top_arena() {
    let host = HostState::boot(1000);
    assert_eq!(host.arenas.len(), 1);
    assert_eq!(host.top, 0);
    assert_eq!(host.current, 0);
    assert!(host.arena_is_valid(0));
    assert!(!host.arena_is_valid(1));
    assert_eq!(host.budget, 1000);
}

#[test]
fn allocation_appends_a_zeroed_live_block_and_spends_budget() {
    let mut host = HostState::boot(100);
    let b = host.request_allocation(0, 8).unwrap();
    assert_eq!(b, 0);
    assert_eq!(host.blocks.len(), 1);
    assert!(host.blocks[0].live);
    assert_eq!(host.blocks[0].arena, 0);
    assert_eq!(host.blocks[0].bytes, vec![0u8; 8]);
    assert_eq!(host.budget, 92);
}

#[test]
fn exhausted_budget_raises_the_signal_and_changes_nothing() {
    let mut host = HostState::boot(4);
    let r = host.request_allocation(0, 5);
    assert!(r.is_err());
    assert_eq!(host.blocks.len(), 0);
    assert_eq!(host.budget, 4);
}

#[test]
fn reclamation_kills_exactly_one_block() {
    let mut host = HostState::boot(100);
    let b0 = host.request_allocation(0, 4).unwrap();
    let b1 = host.request_allocation(0, 4).unwrap();
    host.request_reclamation(b0);
    assert!(!host.blocks[b0].live);
    assert!(host.blocks[b1].live);
}

#[test]
fn reset_invalidates_descendants_but_keeps_the_node() {
    let mut host = HostState::boot(100);
    let child = host.create_arena(0, ArenaTag::AllocSet);
    let grandchild = host.create_arena(child, ArenaTag::Slab);
    let in_child = host.request_allocation(child, 4).unwrap();
    let in_grandchild = host.request_allocation(grandchild, 4).unwrap();
    let in_top = host.request_allocation(0, 4).unwrap();
    host.reset_arena(child);
    assert!(host.arena_is_valid(child));
    assert!(!host.arena_is_valid(grandchild));
    assert!(!host.blocks[in_child].live);
    assert!(!host.blocks[in_grandchild].live);
    assert!(host.blocks[in_top].live);
}

#[test]
fn delete_invalidates_the_whole_subtree() {
    let mut host = HostState::boot(100);
    let child = host.create_arena(0, ArenaTag::Generation);
    let grandchild = host.create_arena(child, ArenaTag::AllocSet);
    let sibling = host.create_arena(0, ArenaTag::AllocSet);
    host.delete_arena(child);
    assert!(!host.arena_is_valid(child));
    assert!(!host.arena_is_valid(grandchild));
    assert!(host.arena_is_valid(sibling));
    assert!(host.arena_is_valid(0));
}

#[test]
fn resetting_the_top_arena_sweeps_everything_under_it() {
    let mut host = HostState::boot(100);
    let child = host.create_arena(0, ArenaTag::AllocSet);
    let b_top = host.request_allocation(0, 2).unwrap();
    let b_child = host.request_allocation(child, 2).unwrap();
    host.reset_arena(0);
    assert!(host.arena_is_valid(0));
    assert!(!host.arena_is_valid(child));
    assert!(!host.blocks[b_top].live);
    assert!(!host.blocks[b_child].live);
}

#[test]
fn the_budget_boundary_is_exact() {
    let mut host = HostState::boot(8);
    assert!(host.request_allocation(0, 8).is_ok());
    assert_eq!(host.budget, 0);
    assert!(host.request_allocation(0, 1).is_err());
    assert!(host.request_allocation(0, 0).is_ok());
}

#[test]
fn register_reads_back_what_was_set() {
    let mut host = HostState::boot(100);
    let child = host.create_arena(0, ArenaTag::AllocSet);
    assert_eq!(host.current_arena(), 0);
    host.set_current_arena(child);
    assert_eq!(host.current_arena(), child);
}

#[test]
fn block_bytes_reads_the_content_back() {
    let mut host = HostState::boot(100);
    let b = host.alloc_bytes(0, vec![1, 2, 3]).unwrap();
    assert_eq!(host.block_bytes(b).as_slice(), &[1, 2, 3]);
    assert!(host.block_is_live(b));
}
