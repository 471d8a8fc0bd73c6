use cs2_overlay::control::{
    refresh_round, wait_step, ListWatch, MatchAction, MatchEvent, MatchWait, RefreshRound, WaitStep, WatchAction,
    WatchEvent,
};
use cs2_overlay::memory::{ReadKind, ReadRequest, Word};
use cs2_overlay::offsets;
use cs2_overlay::trigger::Delay;

#[test]
fn waiting_for_the_game() {
    assert_eq!(wait_step(true, true), WaitStep::Abort);
    assert_eq!(wait_step(false, true), WaitStep::Found);
    assert_eq!(wait_step(false, false), WaitStep::Retry(Delay::Secs(1)));
}

#[test]
fn waiting_for_a_match() {
    let base = 0x7ff0_0000_0000usize;
    let (mut w, a) = MatchWait::new(base);
    assert_eq!(a, MatchAction::CheckAbort);
    let rules_read = MatchAction::Read(ReadRequest { address: base + offsets::dwGameRules, kind: ReadKind::Usize });
    assert_eq!(w.step(MatchEvent::Abort(false)), rules_read);
    assert_eq!(w.step(MatchEvent::Read(None)), MatchAction::Wait(Delay::Secs(2)));
    assert_eq!(w.step(MatchEvent::Resumed), MatchAction::CheckAbort);
    w.step(MatchEvent::Abort(false));
    let started_read = MatchAction::Read(ReadRequest { address: 0x5000 + 0xA4, kind: ReadKind::U8 });
    assert_eq!(w.step(MatchEvent::Read(Some(Word::Usize(0x5000)))), started_read);
    assert_eq!(w.step(MatchEvent::Read(Some(Word::U8(0)))), MatchAction::Wait(Delay::Secs(4)));
    w.step(MatchEvent::Resumed);
    w.step(MatchEvent::Abort(false));
    w.step(MatchEvent::Read(Some(Word::Usize(0x5000))));
    assert_eq!(w.step(MatchEvent::Read(Some(Word::U8(1)))), MatchAction::Begin);
    assert_eq!(w.step(MatchEvent::Resumed), MatchAction::Begin);
}

#[test]
fn stop_while_waiting_for_a_match() {
    let (mut w, _) = MatchWait::new(0);
    assert_eq!(w.step(MatchEvent::Abort(true)), MatchAction::Stop);
    assert_eq!(w.step(MatchEvent::Abort(false)), MatchAction::Stop);
}

#[test]
fn refreshing_the_players() {
    assert_eq!(refresh_round(true, 5), RefreshRound::Stop);
    assert_eq!(refresh_round(true, 0), RefreshRound::Stop);
    assert_eq!(refresh_round(false, 0), RefreshRound::AwaitPlayers(Delay::Secs(5)));
    assert_eq!(refresh_round(false, 3), RefreshRound::Refresh(Delay::Millis(21)));
}

#[test]
fn watching_a_list_that_publishes() {
    let base = 0x7ff0_0000_0000usize;
    let (mut w, a) = ListWatch::new(base, 0x100, 0x200);
    assert_eq!(a, WatchAction::CheckAbort);
    assert_eq!(w.step(WatchEvent::Abort(false)), WatchAction::Scan { list_entry: 0x200, entity_list: 0x100 });
    assert_eq!(w.step(WatchEvent::Scanned(4)), WatchAction::Wait(Delay::Secs(5)));
    assert_eq!(w.step(WatchEvent::Resumed), WatchAction::CheckAbort);
    assert_eq!(w.entity_list, 0x100);
    assert_eq!(w.list_entry, 0x200);
}

#[test]
fn an_empty_walk_reloads_the_pointers() {
    let base = 0x7ff0_0000_0000usize;
    let (mut w, _) = ListWatch::new(base, 0x100, 0x200);
    w.step(WatchEvent::Abort(false));
    let list_read = WatchAction::Read(ReadRequest { address: base + offsets::dwEntityList, kind: ReadKind::Usize });
    assert_eq!(w.step(WatchEvent::Scanned(0)), list_read);
    let entry_read = WatchAction::Read(ReadRequest { address: 0x9000 + 0x10, kind: ReadKind::Usize });
    assert_eq!(w.step(WatchEvent::Read(Some(Word::Usize(0x9000)))), entry_read);
    assert_eq!(w.step(WatchEvent::Read(Some(Word::Usize(0xA000)))), WatchAction::Wait(Delay::Secs(5)));
    assert_eq!(w.entity_list, 0x9000);
    assert_eq!(w.list_entry, 0xA000);
    assert_eq!(w.step(WatchEvent::Resumed), WatchAction::CheckAbort);
    assert_eq!(w.step(WatchEvent::Abort(false)), WatchAction::Scan { list_entry: 0xA000, entity_list: 0x9000 });
}

#[test]
fn an_unreadable_list_pointer_faults() {
    let (mut w, _) = ListWatch::new(0x1000, 0x100, 0x200);
    w.step(WatchEvent::Abort(false));
    w.step(WatchEvent::Scanned(0));
    assert_eq!(w.step(WatchEvent::Read(None)), WatchAction::Fault);
    assert_eq!(w.step(WatchEvent::Resumed), WatchAction::Fault);
    let (mut w, _) = ListWatch::new(usize::MAX, 0x100, 0x200);
    w.step(WatchEvent::Abort(false));
    assert_eq!(w.step(WatchEvent::Scanned(0)), WatchAction::Fault);
}

#[test]
fn a_stop_ends_the_watch() {
    let (mut w, _) = ListWatch::new(0x1000, 0x100, 0x200);
    assert_eq!(w.step(WatchEvent::Abort(true)), WatchAction::Stop);
    assert_eq!(w.step(WatchEvent::Abort(false)), WatchAction::Stop);
}
