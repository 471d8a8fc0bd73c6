use std::collections::HashMap;
use cs2_overlay::memory::{ReadKind, ReadRequest, Word};
use cs2_overlay::offsets;
use cs2_overlay::scan::{EntityScan, ScanAction, ScanEvent};

fn usize_read(address: usize) -> ScanAction {
    ScanAction::Read(ReadRequest { address, kind: ReadKind::Usize })
}

const LIST: usize = 0x1000_0000;
const ENTRY: usize = 0x2000_0000;

/// Drives a walk where every slot holds a player that loads, and answers
/// "handed over" or "kept" when asked.
fn walk_all(local_only: bool) -> (usize, ScanAction, usize) {
    let (mut scan, mut action) = EntityScan::new(ENTRY, LIST, local_only);
    let mut kept = 0;
    loop {
        action = match action {
            ScanAction::Read(_) => scan.step(ScanEvent::Read(Some(Word::Usize(0x9000 + 0x200)))),
            ScanAction::LoadEntity { .. } => scan.step(ScanEvent::Loaded(true)),
            ScanAction::UseAsLocalPlayer => scan.step(ScanEvent::Done),
            ScanAction::Keep => {
                kept += 1;
                scan.step(ScanEvent::Done)
            },
            done => return (kept, done, 0),
        };
    }
}

#[test]
fn walk_reads_a_slot_in_order() {
    let (mut scan, a) = EntityScan::new(ENTRY, LIST, false);
    assert_eq!(a, usize_read(ENTRY));
    let a = scan.step(ScanEvent::Read(Some(Word::Usize(0x5000))));
    assert_eq!(a, usize_read(0x5000 + offsets::m_hPlayerPawn));
    // Handle 0x1203: chunk (0x1203 & 0x7FFF) >> 9 = 9, slot 0x1203 & 0x1FF = 3.
    let a = scan.step(ScanEvent::Read(Some(Word::Usize(0x1203))));
    assert_eq!(a, usize_read(LIST + 8 * 9 + 0x10));
    let a = scan.step(ScanEvent::Read(Some(Word::Usize(0x7000))));
    assert_eq!(a, usize_read(0x7000 + 0x78 * 3));
    let a = scan.step(ScanEvent::Read(Some(Word::Usize(0x8000))));
    assert_eq!(a, ScanAction::LoadEntity { controller: 0x5000, pawn: 0x8000 });
    // Slot 0 is kept.
    assert_eq!(scan.step(ScanEvent::Loaded(true)), ScanAction::Keep);
    assert_eq!(scan.step(ScanEvent::Done), usize_read(ENTRY + 0x78));
}

#[test]
fn empty_slots_are_skipped() {
    let (mut scan, _) = EntityScan::new(ENTRY, LIST, false);
    assert_eq!(scan.step(ScanEvent::Read(None)), usize_read(ENTRY + 0x78));
    scan.step(ScanEvent::Read(Some(Word::Usize(0x5000))));
    assert_eq!(scan.step(ScanEvent::Read(Some(Word::Usize(0)))), usize_read(ENTRY + 2 * 0x78));
    // An event of the wrong sort changes nothing.
    assert_eq!(scan.step(ScanEvent::Done), usize_read(ENTRY + 2 * 0x78));
}

#[test]
fn full_walk_keeps_every_slot_but_the_local_player() {
    let (kept, end, _) = walk_all(false);
    assert_eq!(kept, 63);
    assert_eq!(end, ScanAction::Publish(63));
}

#[test]
fn local_only_walk_ends_at_local_player() {
    let (kept, end, _) = walk_all(true);
    assert_eq!(kept, 1);
    assert_eq!(end, ScanAction::Return(1));
}

#[test]
fn null_lists_publish_nothing() {
    let (_, a) = EntityScan::new(0, LIST, false);
    assert_eq!(a, ScanAction::Publish(0));
    let (_, a) = EntityScan::new(ENTRY, 0, false);
    assert_eq!(a, ScanAction::Publish(0));
}

#[test]
fn overflowing_address_faults() {
    let (mut scan, _) = EntityScan::new(usize::MAX - 0x78, LIST, false);
    assert_eq!(scan.step(ScanEvent::Read(None)), usize_read(usize::MAX));
    assert_eq!(scan.step(ScanEvent::Read(None)), ScanAction::Fault);
    assert_eq!(scan.step(ScanEvent::Read(None)), ScanAction::Fault);
}

#[test]
fn walk_keeps_the_loaded_players_in_slot_order() {
    let mut mem: HashMap<usize, usize> = HashMap::new();
    for i in [0usize, 1, 2, 3, 5] {
        let controller = 0x5000 + i * 0x1000;
        mem.insert(ENTRY + i * 0x78, controller);
        // Handle 0x200 + i: chunk 1, slot i; slot 3 has no pawn handle.
        mem.insert(controller + offsets::m_hPlayerPawn, if i == 3 { 0 } else { 0x200 + i });
        mem.insert(0x7000 + 0x78 * i, 0x8000 + i);
    }
    mem.insert(LIST + 8 + 0x10, 0x7000);
    let (mut scan, mut action) = EntityScan::new(ENTRY, LIST, false);
    let mut loaded = (0, 0);
    let mut kept = vec![];
    let published = loop {
        action = match action {
            ScanAction::Read(r) => scan.step(ScanEvent::Read(mem.get(&r.address).map(|v| Word::Usize(*v)))),
            ScanAction::LoadEntity { controller, pawn } => {
                loaded = (controller, pawn);
                // The player of slot 5 does not load.
                scan.step(ScanEvent::Loaded(controller != 0x5000 + 5 * 0x1000))
            },
            ScanAction::UseAsLocalPlayer => scan.step(ScanEvent::Done),
            ScanAction::Keep => {
                kept.push(loaded);
                scan.step(ScanEvent::Done)
            },
            ScanAction::Publish(n) => break n,
            other => panic!("unexpected {:?}", other),
        };
    };
    assert_eq!(kept, vec![(0x5000, 0x8000), (0x7000, 0x8002)]);
    assert_eq!(published, 2);
}
