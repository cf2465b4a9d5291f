use spotify_mem_reader::events::{track_changed, EventHandler};
use spotify_mem_reader::memory::MemorySpace;
use spotify_mem_reader::resolver::{resolve, PointerChainResolver, ResolveState};
use spotify_mem_reader::{CoreError, CurrentTrack};

#[test]
fn empty_chain_is_no_dereference() {
    // Nothing is readable at all, yet an empty chain resolves: the result
    // is just base + static offset, no read ever happens.
    let mem = MemorySpace::new();
    assert_eq!(resolve(&mem, 0x1000, 0x234, &vec![]), Ok(0x1234));
}

#[test]
fn empty_chain_wraps_like_a_pointer() {
    let mem = MemorySpace::new();
    assert_eq!(resolve(&mem, 0xFFFF_FFFF, 0x2, &vec![]), Ok(0x1));
}

#[test]
fn chain_walk_follows_pointers() {
    let mut mem = MemorySpace::new();
    mem.add_region(0x1010, 0x2000u32.to_le_bytes().to_vec());
    mem.add_region(0x2004, 0x3000u32.to_le_bytes().to_vec());
    // *(0x1000 + 0x10) == 0x2000, *(0x2000 + 0x4) == 0x3000,
    // final address = 0x3000 + 0x8, not dereferenced.
    assert_eq!(resolve(&mem, 0x1000, 0x10, &vec![0x4, 0x8]), Ok(0x3008));
}

#[test]
fn last_hop_is_never_dereferenced() {
    let mut mem = MemorySpace::new();
    mem.add_region(0x1010, 0x2000u32.to_le_bytes().to_vec());
    // Only the start is readable; a single-offset chain needs exactly the
    // one dereference and then adds its offset.
    assert_eq!(resolve(&mem, 0x1000, 0x10, &vec![0x44]), Ok(0x2044));
}

#[test]
fn failed_hop_aborts_resolution() {
    let mut mem = MemorySpace::new();
    mem.add_region(0x1010, 0x2000u32.to_le_bytes().to_vec());
    // The second hop reads unmapped memory: the whole resolution fails,
    // and no truncated address is produced.
    assert_eq!(
        resolve(&mem, 0x1000, 0x10, &vec![0x4, 0x8]),
        Err(CoreError::MemoryReadFailure)
    );
}

#[test]
fn step_machine_walks_chain() {
    let mut w = PointerChainResolver::begin(0x1000, 0x10, vec![0x4, 0x8]);
    assert_eq!(w.next_read(), Some(0x1010));
    w.supply(Some(0x2000));
    assert_eq!(w.next_read(), Some(0x2004));
    w.supply(Some(0x3000));
    assert_eq!(w.next_read(), None);
    assert_eq!(w.address(), Some(0x3008));
}

#[test]
fn step_machine_reports_failure() {
    let mut w = PointerChainResolver::begin(0x1000, 0x10, vec![0x4, 0x8]);
    w.supply(None);
    assert!(matches!(w.state, ResolveState::Failed));
    assert_eq!(w.next_read(), None);
    assert_eq!(w.address(), None);
}

#[test]
fn short_read_is_a_failure() {
    let mut mem = MemorySpace::new();
    mem.add_region(0x1000, vec![0xAA, 0xBB, 0xCC, 0xDD]);
    // A 32-bit read that fits succeeds, little-endian.
    assert_eq!(mem.read_u32(0x1000), Some(0xDDCC_BBAA));
    // One that runs off the readable range fails outright rather than
    // coming back short.
    assert_eq!(mem.read_u32(0x1002), None);
    assert_eq!(mem.read_byte(0x1003), Some(0xDD));
    assert_eq!(mem.read_byte(0x1004), None);
}

#[test]
fn track_change_is_detected() {
    let a = CurrentTrack { title: "One".to_string(), author: "A".to_string() };
    let a2 = CurrentTrack { title: "One".to_string(), author: "A".to_string() };
    let b = CurrentTrack { title: "Two".to_string(), author: "A".to_string() };
    assert!(!track_changed(&None, &None));
    assert!(!track_changed(&Some(a.clone()), &Some(a2)));
    assert!(track_changed(&Some(a.clone()), &Some(b)));
    assert!(track_changed(&None, &Some(a.clone())));
    assert!(track_changed(&Some(a), &None));
}

#[test]
fn track_update_picks_message() {
    let handler = EventHandler::new();
    assert_eq!(handler.on_track_update(&None), "Start playing something!");
    let t = CurrentTrack { title: "One".to_string(), author: "A".to_string() };
    assert_eq!(handler.on_track_update(&Some(t)), "processing...");
}
