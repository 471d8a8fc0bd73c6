//! The decisions of the program's waiting loops: finding the game, waiting
//! for a match to start, keeping the player list fresh, and watching the
//! entity list pointers.
use vstd::prelude::*;
use crate::memory::{add_offset, as_u8, as_usize, offset_address, word_u8, word_usize, ReadKind, ReadRequest, Word};
use crate::offsets;
use crate::trigger::Delay;

verus! {

/// What to do while waiting for something to appear (the game's process, or
/// one of its modules).
#[derive(PartialEq, Eq, Structural, Clone, Copy, Debug)]
pub enum WaitStep {
    /// The overlay asked to stop: give up.
    Abort,
    /// It is there: go on with it.
    Found,
    /// Say that it is awaited, wait this long, and look again.
    Retry(Delay),
}

/// A stop asked for wins over what was found; what was found ends the wait.
pub open spec fn wait_decision(abort_requested: bool, found: bool) -> WaitStep {
    if abort_requested {
        WaitStep::Abort
    } else if found {
        WaitStep::Found
    } else {
        WaitStep::Retry(Delay::Secs(1))
    }
}

/// What to do while waiting for something to appear, given whether a stop
/// was asked for and whether it was found.
pub fn wait_step(abort_requested: bool, found: bool) -> (step: WaitStep)
    ensures
        step == wait_decision(abort_requested, found),
{
    if abort_requested {
        WaitStep::Abort
    } else if found {
        WaitStep::Found
    } else {
        WaitStep::Retry(Delay::Secs(1))
    }
}

/// Where the wait for a match stands.
#[derive(PartialEq, Eq, Structural, Clone, Copy, Debug)]
pub enum MatchStage {
    CheckAbort,
    /// Reading where the game rules are.
    Rules,
    /// Reading whether the match has started, from the game rules here.
    Started(usize),
    /// Waiting, then looking again.
    Resting(Delay),
    /// The match has started.
    Begun,
    Stopped,
    /// An address did not fit in `usize`.
    Faulted,
}

/// What the caller reports back.
#[derive(Debug)]
pub enum MatchEvent {
    Abort(bool),
    Read(Option<Word>),
    Resumed,
}

/// What the caller does next.
#[derive(PartialEq, Eq, Structural, Clone, Copy, Debug)]
pub enum MatchAction {
    CheckAbort,
    /// Read this; a read of whether the match started is shown to the user.
    Read(ReadRequest),
    Wait(Delay),
    /// The match has started: go on.
    Begin,
    Stop,
    Fault,
}

/// The wait for a match to start, given the base of `client.dll`.
#[derive(PartialEq, Eq, Structural, Clone, Copy, Debug)]
pub struct MatchWait {
    pub client_base: usize,
    pub stage: MatchStage,
}

/// What the wait in state `s` asks for.
pub open spec fn match_action(s: MatchWait) -> MatchAction {
    match s.stage {
        MatchStage::CheckAbort => MatchAction::CheckAbort,
        MatchStage::Rules => match offset_address(s.client_base, offsets::dwGameRules as int) {
            Some(address) => MatchAction::Read(ReadRequest { address, kind: ReadKind::Usize }),
            None => MatchAction::Fault,
        },
        MatchStage::Started(rules) => match offset_address(
            rules,
            offsets::game_rules::m_bHasMatchStarted as int,
        ) {
            Some(address) => MatchAction::Read(ReadRequest { address, kind: ReadKind::U8 }),
            None => MatchAction::Fault,
        },
        MatchStage::Resting(d) => MatchAction::Wait(d),
        MatchStage::Begun => MatchAction::Begin,
        MatchStage::Stopped => MatchAction::Stop,
        MatchStage::Faulted => MatchAction::Fault,
    }
}

/// The state the wait in state `s` reaches with `event`. A failed read counts
/// as "no game rules yet" or "not started"; the flag counts as set when its
/// byte is not zero. Events of another sort than the one asked for change
/// nothing, and a wait that is over stays so.
pub open spec fn match_next(s: MatchWait, event: MatchEvent) -> MatchWait {
    let asked = match_action(s);
    if asked is Begin || asked is Stop || asked is Fault {
        s
    } else {
        match (s.stage, event) {
            (MatchStage::CheckAbort, MatchEvent::Abort(stop)) => MatchWait {
                stage: if stop {
                    MatchStage::Stopped
                } else {
                    MatchStage::Rules
                },
                ..s
            },
            (MatchStage::Rules, MatchEvent::Read(w)) => {
                let rules = as_usize(w).unwrap_or(0);
                MatchWait {
                    stage: if rules == 0 {
                        MatchStage::Resting(Delay::Secs(2))
                    } else {
                        MatchStage::Started(rules)
                    },
                    ..s
                }
            },
            (MatchStage::Started(_), MatchEvent::Read(w)) => MatchWait {
                stage: if as_u8(w).unwrap_or(0) != 0 {
                    MatchStage::Begun
                } else {
                    MatchStage::Resting(Delay::Secs(4))
                },
                ..s
            },
            (MatchStage::Resting(_), MatchEvent::Resumed) => MatchWait {
                stage: MatchStage::CheckAbort,
                ..s
            },
            _ => s,
        }
    }
}

impl MatchWait {
    /// Starts waiting for a match, with `client.dll` loaded at `client_base`.
    pub fn new(client_base: usize) -> (res: (Self, MatchAction))
        ensures
            res.0 == (MatchWait { client_base, stage: MatchStage::CheckAbort }),
            res.1 == match_action(res.0),
    {
        let wait = MatchWait { client_base, stage: MatchStage::CheckAbort };
        let action = wait.action();
        (wait, action)
    }

    /// What the wait asks for.
    pub fn action(&self) -> (a: MatchAction)
        ensures
            a == match_action(*self),
    {
        match self.stage {
            MatchStage::CheckAbort => MatchAction::CheckAbort,
            MatchStage::Rules => match add_offset(self.client_base, offsets::dwGameRules) {
                Some(address) => MatchAction::Read(ReadRequest { address, kind: ReadKind::Usize }),
                None => MatchAction::Fault,
            },
            MatchStage::Started(rules) => match add_offset(
                rules,
                offsets::game_rules::m_bHasMatchStarted,
            ) {
                Some(address) => MatchAction::Read(ReadRequest { address, kind: ReadKind::U8 }),
                None => MatchAction::Fault,
            },
            MatchStage::Resting(d) => MatchAction::Wait(d),
            MatchStage::Begun => MatchAction::Begin,
            MatchStage::Stopped => MatchAction::Stop,
            MatchStage::Faulted => MatchAction::Fault,
        }
    }

    /// Takes what the caller reports and says what comes next.
    pub fn step(&mut self, event: MatchEvent) -> (a: MatchAction)
        ensures
            *final(self) == match_next(*old(self), event),
            a == match_action(*final(self)),
    {
        let asked = self.action();
        match asked {
            MatchAction::Begin | MatchAction::Stop | MatchAction::Fault => {
                return asked;
            },
            _ => {},
        }
        let next = match (self.stage, event) {
            (MatchStage::CheckAbort, MatchEvent::Abort(stop)) => {
                if stop {
                    MatchStage::Stopped
                } else {
                    MatchStage::Rules
                }
            },
            (MatchStage::Rules, MatchEvent::Read(w)) => {
                let rules = word_usize(&w).unwrap_or(0);
                if rules == 0 {
                    MatchStage::Resting(Delay::Secs(2))
                } else {
                    MatchStage::Started(rules)
                }
            },
            (MatchStage::Started(_), MatchEvent::Read(w)) => {
                if word_u8(&w).unwrap_or(0) != 0 {
                    MatchStage::Begun
                } else {
                    MatchStage::Resting(Delay::Secs(4))
                }
            },
            (MatchStage::Resting(_), MatchEvent::Resumed) => MatchStage::CheckAbort,
            (stage, _) => stage,
        };
        self.stage = next;
        self.action()
    }
}

/// The wait reads the "match started" flag only from game rules it found.
pub open spec fn match_inv(s: MatchWait) -> bool {
    s.stage matches MatchStage::Started(rules) ==> rules != 0
}

/// The wait lets the program on only after reading a set "match started"
/// flag from game rules it found, and a stop asked for is final.
pub proof fn lemma_match_wait(s: MatchWait, event: MatchEvent)
    ensures
        match_inv(MatchWait { stage: MatchStage::CheckAbort, ..s }),
        match_inv(s) ==> match_inv(match_next(s, event)),
        s.stage != MatchStage::Begun && match_next(s, event).stage == MatchStage::Begun ==> {
            &&& s.stage is Started
            &&& event matches MatchEvent::Read(w) && as_u8(w) matches Some(flag) && flag != 0
        },
        s.stage == MatchStage::Stopped ==> match_next(s, event) == s,
        match_next(s, event).client_base == s.client_base,
{
}

/// One round of keeping the players up to date.
#[derive(PartialEq, Eq, Structural, Clone, Copy, Debug)]
pub enum RefreshRound {
    /// The overlay asked to stop.
    Stop,
    /// No player is known yet: say that the game is awaited, wait this long,
    /// and look again.
    AwaitPlayers(Delay),
    /// Refresh every known player, walk the list again for the local player
    /// alone, then wait this long.
    Refresh(Delay),
}

/// A stop asked for ends the rounds; with no player known the round waits
/// five seconds, otherwise it refreshes them and rests 21 ms.
pub open spec fn refresh_round_decision(abort_requested: bool, players: usize) -> RefreshRound {
    if abort_requested {
        RefreshRound::Stop
    } else if players == 0 {
        RefreshRound::AwaitPlayers(Delay::Secs(5))
    } else {
        RefreshRound::Refresh(Delay::Millis(21))
    }
}

/// What a round of keeping the players up to date does, given whether a stop
/// was asked for and how many players are known.
pub fn refresh_round(abort_requested: bool, players: usize) -> (r: RefreshRound)
    ensures
        r == refresh_round_decision(abort_requested, players),
{
    if abort_requested {
        RefreshRound::Stop
    } else if players == 0 {
        RefreshRound::AwaitPlayers(Delay::Secs(5))
    } else {
        RefreshRound::Refresh(Delay::Millis(21))
    }
}

/// Where a round of watching the entity list stands.
#[derive(PartialEq, Eq, Structural, Clone, Copy, Debug)]
pub enum WatchStage {
    CheckAbort,
    /// Walking the entity list and publishing its players.
    Scanning,
    /// Nothing was published: reading the entity list pointer again.
    ListPointer,
    /// Reading the first block of the entity list again.
    ListEntry,
    /// Waiting before the next round.
    Resting,
    Stopped,
    /// An address did not fit in `usize`, or a pointer could not be read.
    Faulted,
}

/// What the caller reports back to the watch.
#[derive(Debug)]
pub enum WatchEvent {
    Abort(bool),
    /// The walk published this many players.
    Scanned(usize),
    Read(Option<Word>),
    Resumed,
}

/// What the caller does next for the watch.
#[derive(PartialEq, Eq, Structural, Clone, Copy, Debug)]
pub enum WatchAction {
    CheckAbort,
    /// Walk the entity list with these pointers and publish what it finds.
    Scan { list_entry: usize, entity_list: usize },
    Read(ReadRequest),
    Wait(Delay),
    Stop,
    Fault,
}

/// The watch over the entity list: every five seconds it walks the list and
/// publishes the players, and when none was published it reads the list's
/// pointers again, since the game may have moved them.
#[derive(PartialEq, Eq, Structural, Clone, Copy, Debug)]
pub struct ListWatch {
    pub client_base: usize,
    pub entity_list: usize,
    pub list_entry: usize,
    pub stage: WatchStage,
}

/// What the watch in state `s` asks for.
pub open spec fn watch_action(s: ListWatch) -> WatchAction {
    match s.stage {
        WatchStage::CheckAbort => WatchAction::CheckAbort,
        WatchStage::Scanning => WatchAction::Scan {
            list_entry: s.list_entry,
            entity_list: s.entity_list,
        },
        WatchStage::ListPointer => match offset_address(s.client_base, offsets::dwEntityList as int) {
            Some(address) => WatchAction::Read(ReadRequest { address, kind: ReadKind::Usize }),
            None => WatchAction::Fault,
        },
        WatchStage::ListEntry => match offset_address(s.entity_list, 0x10) {
            Some(address) => WatchAction::Read(ReadRequest { address, kind: ReadKind::Usize }),
            None => WatchAction::Fault,
        },
        WatchStage::Resting => WatchAction::Wait(Delay::Secs(5)),
        WatchStage::Stopped => WatchAction::Stop,
        WatchStage::Faulted => WatchAction::Fault,
    }
}

/// The state the watch in state `s` reaches with `event`. A pointer that
/// cannot be read ends the watch in a fault; events of another sort than the
/// one asked for change nothing, and a watch that is over stays so.
pub open spec fn watch_next(s: ListWatch, event: WatchEvent) -> ListWatch {
    let asked = watch_action(s);
    if asked is Stop || asked is Fault {
        s
    } else {
        match (s.stage, event) {
            (WatchStage::CheckAbort, WatchEvent::Abort(stop)) => ListWatch {
                stage: if stop {
                    WatchStage::Stopped
                } else {
                    WatchStage::Scanning
                },
                ..s
            },
            (WatchStage::Scanning, WatchEvent::Scanned(n)) => ListWatch {
                stage: if n == 0 {
                    WatchStage::ListPointer
                } else {
                    WatchStage::Resting
                },
                ..s
            },
            (WatchStage::ListPointer, WatchEvent::Read(w)) => match as_usize(w) {
                Some(list) => ListWatch { entity_list: list, stage: WatchStage::ListEntry, ..s },
                None => ListWatch { stage: WatchStage::Faulted, ..s },
            },
            (WatchStage::ListEntry, WatchEvent::Read(w)) => match as_usize(w) {
                Some(entry) => ListWatch { list_entry: entry, stage: WatchStage::Resting, ..s },
                None => ListWatch { stage: WatchStage::Faulted, ..s },
            },
            (WatchStage::Resting, WatchEvent::Resumed) => ListWatch {
                stage: WatchStage::CheckAbort,
                ..s
            },
            _ => s,
        }
    }
}

impl ListWatch {
    /// Starts watching the entity list, with `client.dll` loaded at
    /// `client_base` and the list's pointers as first read.
    pub fn new(client_base: usize, entity_list: usize, list_entry: usize) -> (res: (
        Self,
        WatchAction,
    ))
        ensures
            res.0 == (ListWatch { client_base, entity_list, list_entry, stage: WatchStage::CheckAbort }),
            res.1 == watch_action(res.0),
    {
        let watch = ListWatch { client_base, entity_list, list_entry, stage: WatchStage::CheckAbort };
        (watch, WatchAction::CheckAbort)
    }

    /// What the watch asks for.
    pub fn action(&self) -> (a: WatchAction)
        ensures
            a == watch_action(*self),
    {
        match self.stage {
            WatchStage::CheckAbort => WatchAction::CheckAbort,
            WatchStage::Scanning => WatchAction::Scan {
                list_entry: self.list_entry,
                entity_list: self.entity_list,
            },
            WatchStage::ListPointer => match add_offset(self.client_base, offsets::dwEntityList) {
                Some(address) => WatchAction::Read(ReadRequest { address, kind: ReadKind::Usize }),
                None => WatchAction::Fault,
            },
            WatchStage::ListEntry => match add_offset(self.entity_list, 0x10) {
                Some(address) => WatchAction::Read(ReadRequest { address, kind: ReadKind::Usize }),
                None => WatchAction::Fault,
            },
            WatchStage::Resting => WatchAction::Wait(Delay::Secs(5)),
            WatchStage::Stopped => WatchAction::Stop,
            WatchStage::Faulted => WatchAction::Fault,
        }
    }

    /// Takes what the caller reports and says what comes next.
    pub fn step(&mut self, event: WatchEvent) -> (a: WatchAction)
        ensures
            *final(self) == watch_next(*old(self), event),
            a == watch_action(*final(self)),
    {
        let asked = self.action();
        match asked {
            WatchAction::Stop | WatchAction::Fault => {
                return asked;
            },
            _ => {},
        }
        match (self.stage, event) {
            (WatchStage::CheckAbort, WatchEvent::Abort(stop)) => {
                self.stage = if stop {
                    WatchStage::Stopped
                } else {
                    WatchStage::Scanning
                };
            },
            (WatchStage::Scanning, WatchEvent::Scanned(n)) => {
                self.stage = if n == 0 {
                    WatchStage::ListPointer
                } else {
                    WatchStage::Resting
                };
            },
            (WatchStage::ListPointer, WatchEvent::Read(w)) => match word_usize(&w) {
                Some(list) => {
                    self.entity_list = list;
                    self.stage = WatchStage::ListEntry;
                },
                None => {
                    self.stage = WatchStage::Faulted;
                },
            },
            (WatchStage::ListEntry, WatchEvent::Read(w)) => match word_usize(&w) {
                Some(entry) => {
                    self.list_entry = entry;
                    self.stage = WatchStage::Resting;
                },
                None => {
                    self.stage = WatchStage::Faulted;
                },
            },
            (WatchStage::Resting, WatchEvent::Resumed) => {
                self.stage = WatchStage::CheckAbort;
            },
            _ => {},
        }
        self.action()
    }
}

/// The watch reads the list's pointers again only after a walk that
/// published no player, takes the values read, and is otherwise left as it
/// was; a stop asked for is final.
pub proof fn lemma_list_watch(s: ListWatch, event: WatchEvent)
    ensures
        ({
            let t = watch_next(s, event);
            &&& t.client_base == s.client_base
            &&& s.stage == WatchStage::Stopped ==> t == s
            &&& t.entity_list != s.entity_list ==> {
                &&& s.stage == WatchStage::ListPointer
                &&& event matches WatchEvent::Read(w) && as_usize(w) == Some(t.entity_list)
            }
            &&& t.list_entry != s.list_entry ==> {
                &&& s.stage == WatchStage::ListEntry
                &&& event matches WatchEvent::Read(w) && as_usize(w) == Some(t.list_entry)
            }
            &&& t.stage == WatchStage::ListPointer && s.stage != WatchStage::ListPointer ==> {
                &&& s.stage == WatchStage::Scanning
                &&& event == WatchEvent::Scanned(0)
            }
        }),
{
}

/// A stop asked for gives up the wait, whatever was found; otherwise what
/// was found ends it, and a miss is retried after one second.
pub proof fn lemma_wait_decision(abort_requested: bool, found: bool)
    ensures
        abort_requested ==> wait_decision(abort_requested, found) == WaitStep::Abort,
        !abort_requested && found ==> wait_decision(abort_requested, found) == WaitStep::Found,
        !abort_requested && !found ==> wait_decision(abort_requested, found) == WaitStep::Retry(
            Delay::Secs(1),
        ),
{
}

/// The wait for a match reads where the game rules are (a `usize` at the
/// client base + 0x181E058) and then whether the match has started (a byte
/// at the game rules + 0xA4); null game rules or a failed read rest two
/// seconds, a flag that is zero or unread rests four, a set flag lets the
/// program on; after a rest it checks for a stop again, and a stop ends it.
pub proof fn lemma_match_steps(s: MatchWait, event: MatchEvent)
    ensures
        s.stage == MatchStage::Rules ==> match_action(s) == (if s.client_base + 0x181E058
            <= usize::MAX {
            MatchAction::Read(
                ReadRequest { address: (s.client_base + 0x181E058) as usize, kind: ReadKind::Usize },
            )
        } else {
            MatchAction::Fault
        }),
        s.stage matches MatchStage::Started(r) ==> match_action(s) == (if r + 0xA4 <= usize::MAX {
            MatchAction::Read(ReadRequest { address: (r + 0xA4) as usize, kind: ReadKind::U8 })
        } else {
            MatchAction::Fault
        }),
        s.stage == MatchStage::CheckAbort ==> (event matches MatchEvent::Abort(stop) ==> match_next(
            s,
            event,
        ).stage == (if stop {
            MatchStage::Stopped
        } else {
            MatchStage::Rules
        })),
        s.stage == MatchStage::Rules && match_action(s) is Read ==> (event matches MatchEvent::Read(
            w,
        ) ==> match_next(s, event).stage == match w {
            Some(Word::Usize(r)) => if r != 0 {
                MatchStage::Started(r)
            } else {
                MatchStage::Resting(Delay::Secs(2))
            },
            _ => MatchStage::Resting(Delay::Secs(2)),
        }),
        s.stage is Started && match_action(s) is Read ==> (event matches MatchEvent::Read(w)
            ==> match_next(s, event).stage == match w {
            Some(Word::U8(f)) => if f != 0 {
                MatchStage::Begun
            } else {
                MatchStage::Resting(Delay::Secs(4))
            },
            _ => MatchStage::Resting(Delay::Secs(4)),
        }),
        s.stage is Resting ==> (event is Resumed ==> match_next(s, event).stage
            == MatchStage::CheckAbort),
{
}

/// A round of keeping the players fresh stops when asked to; with no player
/// known it waits five seconds, otherwise it refreshes them and rests 21 ms.
pub proof fn lemma_refresh_round(abort_requested: bool, players: usize)
    ensures
        abort_requested ==> refresh_round_decision(abort_requested, players) == RefreshRound::Stop,
        !abort_requested && players == 0 ==> refresh_round_decision(abort_requested, players)
            == RefreshRound::AwaitPlayers(Delay::Secs(5)),
        !abort_requested && players != 0 ==> refresh_round_decision(abort_requested, players)
            == RefreshRound::Refresh(Delay::Millis(21)),
{
}

/// The watch walks the list with its pointers, rests five seconds after a
/// walk that published players, and after one that published none reads
/// the entity list pointer (a `usize` at the client base + 0x17C1960) and
/// then the list's first block (at the new list + 0x10), taking both.
pub proof fn lemma_watch_steps(s: ListWatch, event: WatchEvent)
    ensures
        s.stage == WatchStage::Scanning ==> watch_action(s) == (WatchAction::Scan {
            list_entry: s.list_entry,
            entity_list: s.entity_list,
        }),
        s.stage == WatchStage::Resting ==> watch_action(s) == WatchAction::Wait(Delay::Secs(5)),
        s.stage == WatchStage::ListPointer ==> watch_action(s) == (if s.client_base + 0x17C1960
            <= usize::MAX {
            WatchAction::Read(
                ReadRequest { address: (s.client_base + 0x17C1960) as usize, kind: ReadKind::Usize },
            )
        } else {
            WatchAction::Fault
        }),
        s.stage == WatchStage::ListEntry ==> watch_action(s) == (if s.entity_list + 0x10
            <= usize::MAX {
            WatchAction::Read(
                ReadRequest { address: (s.entity_list + 0x10) as usize, kind: ReadKind::Usize },
            )
        } else {
            WatchAction::Fault
        }),
        s.stage == WatchStage::CheckAbort ==> (event matches WatchEvent::Abort(stop) ==> watch_next(
            s,
            event,
        ).stage == (if stop {
            WatchStage::Stopped
        } else {
            WatchStage::Scanning
        })),
        s.stage == WatchStage::Scanning ==> (event matches WatchEvent::Scanned(n) ==> watch_next(
            s,
            event,
        ).stage == (if n == 0 {
            WatchStage::ListPointer
        } else {
            WatchStage::Resting
        })),
        s.stage == WatchStage::ListPointer && watch_action(s) is Read ==> (event matches WatchEvent::Read(
            w,
        ) ==> watch_next(s, event) == match w {
            Some(Word::Usize(list)) => (ListWatch { entity_list: list, stage: WatchStage::ListEntry, ..s }),
            _ => (ListWatch { stage: WatchStage::Faulted, ..s }),
        }),
        s.stage == WatchStage::ListEntry && watch_action(s) is Read ==> (event matches WatchEvent::Read(
            w,
        ) ==> watch_next(s, event) == match w {
            Some(Word::Usize(entry)) => (ListWatch { list_entry: entry, stage: WatchStage::Resting, ..s }),
            _ => (ListWatch { stage: WatchStage::Faulted, ..s }),
        }),
        s.stage == WatchStage::Resting ==> (event is Resumed ==> watch_next(s, event).stage
            == WatchStage::CheckAbort),
{
}

} // verus!
