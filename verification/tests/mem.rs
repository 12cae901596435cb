use pg_bridge::host::{ArenaTag, HostState};
use pg_bridge::mem::{
    identify_global, make_current, memory_context_is_valid, perform, HostCall, MemCx, RawMemCtx,
};

#[test]
fn make_current_restores_the_register_after_a_normal_return() {
    let mut host = HostState::boot(1000);
    let child = host.create_arena(0, ArenaTag::AllocSet);
    let r = make_current(&mut host, child, HostCall::Allocate { size: 16 });
    let d = r.unwrap();
    assert_eq!(host.current, 0);
    assert_eq!(host.blocks[d.value as usize].arena, child);
}

#[test]
fn make_current_restores_the_register_after_a_raised_signal() {
    let mut host = HostState::boot(4);
    let child = host.create_arena(0, ArenaTag::AllocSet);
    host.set_current_arena(child);
    let other = host.create_arena(0, ArenaTag::Slab);
    let r = make_current(&mut host, other, HostCall::Allocate { size: 50 });
    assert!(r.is_err());
    assert_eq!(host.current, child);
    assert_eq!(host.blocks.len(), 0);
}

#[test]
fn make_current_also_carries_reclamations() {
    let mut host = HostState::boot(1000);
    let child = host.create_arena(0, ArenaTag::AllocSet);
    let d = make_current(&mut host, child, HostCall::Allocate { size: 4 }).unwrap();
    let freed = make_current(&mut host, child, HostCall::Reclaim { block: d.value as usize });
    assert_eq!(freed.map(|x| x.value), Ok(0));
    assert!(!host.blocks[d.value as usize].live);
    assert_eq!(host.current, 0);
}

#[test]
fn perform_reads_the_register_implicitly() {
    let mut host = HostState::boot(1000);
    let child = host.create_arena(0, ArenaTag::Generation);
    host.set_current_arena(child);
    let d = perform(&mut host, HostCall::Allocate { size: 4 }).unwrap();
    assert_eq!(host.blocks[d.value as usize].arena, child);
    let freed = perform(&mut host, HostCall::Reclaim { block: d.value as usize }).unwrap();
    assert_eq!(freed.value, 0);
    assert!(!host.blocks[d.value as usize].live);
}

#[test]
fn handles_come_from_validated_references() {
    let mut host = HostState::boot(100);
    let child = host.create_arena(0, ArenaTag::Slab);
    assert!(memory_context_is_valid(&host, child));
    let raw = RawMemCtx::from_raw(&host, child);
    assert_eq!(raw.idx, child);
    let b = raw.allocate(&mut host, 8).unwrap();
    assert_eq!(host.blocks[b].arena, child);
    host.delete_arena(child);
    assert!(!memory_context_is_valid(&host, child));
}

#[test]
fn only_the_distinguished_arenas_borrow_safely() {
    let mut host = HostState::boot(100);
    let child = host.create_arena(0, ArenaTag::AllocSet);
    host.set_current_arena(child);
    let cur = MemCx::borrow_current(&host);
    let top = MemCx::borrow_top(&host);
    assert_eq!(cur.raw.idx, child);
    assert_eq!(top.raw.idx, 0);
    let other = host.create_arena(0, ArenaTag::AllocSet);
    let escape = MemCx::from_raw_unchecked(&host, RawMemCtx::from_raw(&host, other));
    let mut host2 = host;
    let b = escape.allocate(&mut host2, 2).unwrap();
    assert_eq!(host2.blocks[b].arena, other);
}

#[test]
fn the_global_arenas_answer_to_their_names() {
    let mut host = HostState::boot(100);
    let child = host.create_arena(0, ArenaTag::AllocSet);
    host.set_current_arena(child);
    assert_eq!(identify_global(&host, 0), Some("TopMemoryContext"));
    assert_eq!(identify_global(&host, child), Some("CurrentMemoryContext"));
    let other = host.create_arena(0, ArenaTag::AllocSet);
    assert_eq!(identify_global(&host, other), None);
}
