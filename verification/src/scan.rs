//! The walk over the game's entity list that finds the players: the local
//! player sits in slot 1, every other loaded player is kept.
use vstd::prelude::*;
use crate::entity::{mem_usize, Memory};
use crate::memory::{add_offset, as_usize, offset_address, word_usize, ReadKind, ReadRequest, Word};
use crate::offsets;

verus! {

/// The number of slots of the entity list that are walked.
pub const ENTITY_SLOTS: usize = 64;

/// The slot of the entity list that holds the local player.
pub const LOCAL_PLAYER_SLOT: usize = 1;

/// The offset, from the entity list, of the chunk that an entity handle points into.
pub open spec fn chunk_offset(handle: usize) -> int {
    8 * ((handle & 0x7FFF) >> 9) + 0x10
}

/// The offset, inside its chunk, of the slot that an entity handle points to.
pub open spec fn slot_offset(handle: usize) -> int {
    0x78 * (handle & 0x1FF)
}

/// Where the walk stands.
#[derive(PartialEq, Eq, Structural, Clone, Copy, Debug)]
pub enum ScanStage {
    /// Reading the controller of the current slot.
    Controller,
    PawnHandle,
    Chunk,
    Pawn,
    /// Loading the player of the current slot.
    Load,
    /// Handing the loaded player over as the local player.
    Promote,
    /// Keeping the loaded player.
    Keep,
    /// Ended early with the local player.
    Returned,
    /// An address did not fit in `usize`.
    Faulted,
}

/// What the caller reports back to the walk.
#[derive(Debug)]
pub enum ScanEvent {
    /// The result of the read asked for.
    Read(Option<Word>),
    /// Whether the player asked for loaded.
    Loaded(bool),
    /// The player was handed over or kept, as asked.
    Done,
}

/// What the caller does next.
#[derive(PartialEq, Eq, Structural, Clone, Copy, Debug)]
pub enum ScanAction {
    Read(ReadRequest),
    /// Load the player with this controller and pawn, and report whether it loaded.
    LoadEntity { controller: usize, pawn: usize },
    /// Make the player just loaded the local player.
    UseAsLocalPlayer,
    /// Keep the player just loaded.
    Keep,
    /// The walk is over: publish the players kept, this many of them.
    Publish(usize),
    /// The walk is over early: the local player was all that was asked for.
    Return(usize),
    /// Stop: the program cannot go on.
    Fault,
}

/// The state of a walk.
#[derive(PartialEq, Eq, Structural, Clone, Copy, Debug)]
pub struct ScanState {
    pub list_entry: usize,
    pub entity_list: usize,
    pub local_player_only: bool,
    pub stage: ScanStage,
    /// The slot being looked at.
    pub index: usize,
    pub controller: usize,
    pub pawn_handle: usize,
    pub chunk: usize,
    pub pawn: usize,
    /// How many players were kept.
    pub kept: usize,
}

/// The walk never looks past the last slot and keeps at most one player per slot.
pub open spec fn scan_wf(s: ScanState) -> bool {
    &&& s.kept <= s.index <= ENTITY_SLOTS
    &&& s.stage != ScanStage::Controller ==> s.index < ENTITY_SLOTS
}

/// A read of a `usize` at `base + offset`, or a fault when that address does not fit.
pub open spec fn scan_read(base: usize, offset: int) -> ScanAction {
    match offset_address(base, offset) {
        Some(address) => ScanAction::Read(ReadRequest { address, kind: ReadKind::Usize }),
        None => ScanAction::Fault,
    }
}

/// What a walk in state `s` asks for.
pub open spec fn scan_action(s: ScanState) -> ScanAction {
    match s.stage {
        ScanStage::Controller => {
            if s.index >= ENTITY_SLOTS || s.list_entry == 0 || s.entity_list == 0 {
                ScanAction::Publish(s.kept)
            } else {
                scan_read(s.list_entry, s.index * offsets::entity_slot)
            }
        },
        ScanStage::PawnHandle => scan_read(s.controller, offsets::m_hPlayerPawn as int),
        ScanStage::Chunk => scan_read(s.entity_list, chunk_offset(s.pawn_handle)),
        ScanStage::Pawn => scan_read(s.chunk, slot_offset(s.pawn_handle)),
        ScanStage::Load => ScanAction::LoadEntity { controller: s.controller, pawn: s.pawn },
        ScanStage::Promote => ScanAction::UseAsLocalPlayer,
        ScanStage::Keep => ScanAction::Keep,
        ScanStage::Returned => ScanAction::Return(1),
        ScanStage::Faulted => ScanAction::Fault,
    }
}

/// The state a walk starts in.
pub open spec fn scan_start(list_entry: usize, entity_list: usize, local_player_only: bool) -> ScanState {
    ScanState {
        list_entry,
        entity_list,
        local_player_only,
        stage: ScanStage::Controller,
        index: 0,
        controller: 0,
        pawn_handle: 0,
        chunk: 0,
        pawn: 0,
        kept: 0,
    }
}

/// The walk moved on to the next slot.
pub open spec fn scan_advance(s: ScanState) -> ScanState {
    ScanState { stage: ScanStage::Controller, index: (s.index + 1) as usize, ..s }
}

/// The state a walk in state `s` reaches with `event`. Failed reads count
/// as zero; a zero controller or pawn handle skips the slot. An event of
/// another sort than the one asked for changes nothing, and a walk that is
/// over stays as it is.
pub open spec fn scan_next(s: ScanState, event: ScanEvent) -> ScanState {
    let asked = scan_action(s);
    if asked is Publish || asked is Return || asked is Fault {
        s
    } else {
        match (s.stage, event) {
            (ScanStage::Controller, ScanEvent::Read(w)) => {
                let controller = as_usize(w).unwrap_or(0);
                if controller == 0 {
                    scan_advance(s)
                } else {
                    ScanState { stage: ScanStage::PawnHandle, controller, ..s }
                }
            },
            (ScanStage::PawnHandle, ScanEvent::Read(w)) => {
                let handle = as_usize(w).unwrap_or(0);
                if handle == 0 {
                    scan_advance(s)
                } else {
                    ScanState { stage: ScanStage::Chunk, pawn_handle: handle, ..s }
                }
            },
            (ScanStage::Chunk, ScanEvent::Read(w)) => ScanState {
                stage: ScanStage::Pawn,
                chunk: as_usize(w).unwrap_or(0),
                ..s
            },
            (ScanStage::Pawn, ScanEvent::Read(w)) => ScanState {
                stage: ScanStage::Load,
                pawn: as_usize(w).unwrap_or(0),
                ..s
            },
            (ScanStage::Load, ScanEvent::Loaded(ok)) => {
                if !ok {
                    scan_advance(s)
                } else if s.index == LOCAL_PLAYER_SLOT {
                    ScanState { stage: ScanStage::Promote, ..s }
                } else {
                    ScanState { stage: ScanStage::Keep, ..s }
                }
            },
            (ScanStage::Promote, ScanEvent::Done) => {
                if s.local_player_only {
                    ScanState { stage: ScanStage::Returned, ..s }
                } else {
                    scan_advance(s)
                }
            },
            (ScanStage::Keep, ScanEvent::Done) => scan_advance(
                ScanState { kept: (s.kept + 1) as usize, ..s },
            ),
            _ => s,
        }
    }
}

/// A walk over the entity list.
pub struct EntityScan {
    state: ScanState,
}

impl View for EntityScan {
    type V = ScanState;

    closed spec fn view(&self) -> ScanState {
        self.state
    }
}

/// A read of a `usize` at `base + offset`, or a fault when that address does not fit.
fn scan_request(base: usize, offset: usize) -> (a: ScanAction)
    ensures
        a == scan_read(base, offset as int),
{
    match add_offset(base, offset) {
        Some(address) => ScanAction::Read(ReadRequest { address, kind: ReadKind::Usize }),
        None => ScanAction::Fault,
    }
}

impl EntityScan {
    #[verifier::type_invariant]
    spec fn well_formed(self) -> bool {
        scan_wf(self.state)
    }

    /// Starts a walk over the entity list at `entity_list`, whose first
    /// chunk is at `list_entry`; with `local_player_only` it ends as soon as
    /// the local player is found.
    pub fn new(list_entry: usize, entity_list: usize, local_player_only: bool) -> (res: (
        Self,
        ScanAction,
    ))
        ensures
            res.0@ == scan_start(list_entry, entity_list, local_player_only),
            res.1 == scan_action(res.0@),
            scan_wf(res.0@),
    {
        let scan = EntityScan {
            state: ScanState {
                list_entry,
                entity_list,
                local_player_only,
                stage: ScanStage::Controller,
                index: 0,
                controller: 0,
                pawn_handle: 0,
                chunk: 0,
                pawn: 0,
                kept: 0,
            },
        };
        let action = scan.action();
        (scan, action)
    }

    /// What the walk asks for.
    pub fn action(&self) -> (a: ScanAction)
        ensures
            a == scan_action(self@),
    {
        proof {
            use_type_invariant(self);
        }
        let s = self.state;
        match s.stage {
            ScanStage::Controller => {
                if s.index >= ENTITY_SLOTS || s.list_entry == 0 || s.entity_list == 0 {
                    ScanAction::Publish(s.kept)
                } else {
                    scan_request(s.list_entry, s.index * offsets::entity_slot)
                }
            },
            ScanStage::PawnHandle => scan_request(s.controller, offsets::m_hPlayerPawn),
            ScanStage::Chunk => {
                let h = s.pawn_handle;
                assert((h & 0x7FFF) >> 9 <= 63) by (bit_vector);
                scan_request(s.entity_list, 8 * ((h & 0x7FFF) >> 9) + 0x10)
            },
            ScanStage::Pawn => {
                let h = s.pawn_handle;
                assert(h & 0x1FF <= 511) by (bit_vector);
                scan_request(s.chunk, 0x78 * (h & 0x1FF))
            },
            ScanStage::Load => ScanAction::LoadEntity { controller: s.controller, pawn: s.pawn },
            ScanStage::Promote => ScanAction::UseAsLocalPlayer,
            ScanStage::Keep => ScanAction::Keep,
            ScanStage::Returned => ScanAction::Return(1),
            ScanStage::Faulted => ScanAction::Fault,
        }
    }

    /// Takes what the caller reports and says what comes next.
    pub fn step(&mut self, event: ScanEvent) -> (a: ScanAction)
        ensures
            final(self)@ == scan_next(old(self)@, event),
            a == scan_action(final(self)@),
            scan_wf(final(self)@),
    {
        proof {
            use_type_invariant(&*self);
        }
        let asked = self.action();
        match asked {
            ScanAction::Publish(_) | ScanAction::Return(_) | ScanAction::Fault => {
                return asked;
            },
            _ => {},
        }
        let s = self.state;
        let next = match (s.stage, event) {
            (ScanStage::Controller, ScanEvent::Read(w)) => {
                let controller = word_usize(&w).unwrap_or(0);
                if controller == 0 {
                    ScanState { stage: ScanStage::Controller, index: s.index + 1, ..s }
                } else {
                    ScanState { stage: ScanStage::PawnHandle, controller, ..s }
                }
            },
            (ScanStage::PawnHandle, ScanEvent::Read(w)) => {
                let handle = word_usize(&w).unwrap_or(0);
                if handle == 0 {
                    ScanState { stage: ScanStage::Controller, index: s.index + 1, ..s }
                } else {
                    ScanState { stage: ScanStage::Chunk, pawn_handle: handle, ..s }
                }
            },
            (ScanStage::Chunk, ScanEvent::Read(w)) => ScanState {
                stage: ScanStage::Pawn,
                chunk: word_usize(&w).unwrap_or(0),
                ..s
            },
            (ScanStage::Pawn, ScanEvent::Read(w)) => ScanState {
                stage: ScanStage::Load,
                pawn: word_usize(&w).unwrap_or(0),
                ..s
            },
            (ScanStage::Load, ScanEvent::Loaded(ok)) => {
                if !ok {
                    ScanState { stage: ScanStage::Controller, index: s.index + 1, ..s }
                } else if s.index == LOCAL_PLAYER_SLOT {
                    ScanState { stage: ScanStage::Promote, ..s }
                } else {
                    ScanState { stage: ScanStage::Keep, ..s }
                }
            },
            (ScanStage::Promote, ScanEvent::Done) => {
                if s.local_player_only {
                    ScanState { stage: ScanStage::Returned, ..s }
                } else {
                    ScanState { stage: ScanStage::Controller, index: s.index + 1, ..s }
                }
            },
            (ScanStage::Keep, ScanEvent::Done) => ScanState {
                stage: ScanStage::Controller,
                index: s.index + 1,
                kept: s.kept + 1,
                ..s
            },
            _ => s,
        };
        self.state = next;
        proof {
            use_type_invariant(&*self);
        }
        self.action()
    }
}

/// The walk keeps its bounds; it keeps players only from slots other than
/// the local player's, so it counts at most one player per such slot passed.
pub open spec fn scan_inv(s: ScanState) -> bool {
    &&& scan_wf(s)
    &&& s.stage == ScanStage::Keep ==> s.index != LOCAL_PLAYER_SLOT
    &&& s.stage == ScanStage::Promote || s.stage == ScanStage::Returned ==> s.index
        == LOCAL_PLAYER_SLOT
    &&& s.kept + (if s.index > LOCAL_PLAYER_SLOT {
        1int
    } else {
        0int
    }) <= s.index
}

/// Every walk starts in a state that keeps the invariant, and every step keeps it.
pub proof fn lemma_scan_inv(s: ScanState, event: ScanEvent)
    ensures
        scan_inv(
            ScanState {
                stage: ScanStage::Controller,
                index: 0,
                controller: 0,
                pawn_handle: 0,
                chunk: 0,
                pawn: 0,
                kept: 0,
                ..s
            },
        ),
        scan_inv(s) ==> scan_inv(scan_next(s, event)),
{
}

/// The local player is never among the players published: a walk publishes
/// at most one player fewer than there are slots.
pub proof fn lemma_scan_publishes_without_local(s: ScanState)
    requires
        scan_inv(s),
        scan_action(s) matches ScanAction::Publish(_),
    ensures
        scan_action(s) matches ScanAction::Publish(n) && n < ENTITY_SLOTS,
{
}

/// A walk ends early only when it was asked for the local player alone,
/// right after handing the local player over.
pub proof fn lemma_scan_returns_after_local(s: ScanState, event: ScanEvent)
    requires
        s.stage != ScanStage::Returned,
        scan_next(s, event).stage == ScanStage::Returned,
    ensures
        s.stage == ScanStage::Promote,
        s.local_player_only,
        event is Done,
        scan_action(scan_next(s, event)) == ScanAction::Return(1),
{
}

/// An entity handle names a chunk of the entity list and a slot in it: the
/// two together give back the handle's low 15 bits, so distinct handles
/// (in those bits) reach distinct places.
pub proof fn lemma_handle_split(handle: usize)
    ensures
        (handle & 0x7FFF) >> 9 < 64,
        handle & 0x1FF < 512,
        ((handle & 0x7FFF) >> 9) * 512 + (handle & 0x1FF) == handle & 0x7FFF,
{
    assert((handle & 0x7FFF) >> 9 < 64) by (bit_vector);
    assert(handle & 0x1FF < 512) by (bit_vector);
    assert(((handle & 0x7FFF) >> 9) * 512 + (handle & 0x1FF) == handle & 0x7FFF) by (bit_vector);
}

/// Whether the player with this controller and pawn loads.
pub type Loads = spec_fn(usize, usize) -> bool;

/// What a walk in state `s` is handed back when memory is `mem` and the
/// players that load are those `loads` says.
pub open spec fn scan_event(s: ScanState, mem: Memory, loads: Loads) -> ScanEvent {
    match scan_action(s) {
        ScanAction::Read(r) => ScanEvent::Read(mem(r)),
        ScanAction::LoadEntity { controller, pawn } => ScanEvent::Loaded(loads(controller, pawn)),
        _ => ScanEvent::Done,
    }
}

/// The walk from state `s` after `fuel` steps.
pub open spec fn scan_run(s: ScanState, mem: Memory, loads: Loads, fuel: nat) -> ScanState
    decreases fuel,
{
    if fuel == 0 {
        s
    } else {
        scan_run(scan_next(s, scan_event(s, mem, loads)), mem, loads, (fuel - 1) as nat)
    }
}

/// The player (controller and pawn) that a walk in state `s` asks to keep, if any.
pub open spec fn scan_kept_now(s: ScanState) -> Seq<(usize, usize)> {
    if scan_action(s) is Keep {
        seq![(s.controller, s.pawn)]
    } else {
        Seq::empty()
    }
}

/// The players, in order, that the walk from state `s` asks to keep in `fuel` steps.
pub open spec fn scan_trace(s: ScanState, mem: Memory, loads: Loads, fuel: nat) -> Seq<(usize, usize)>
    decreases fuel,
{
    if fuel == 0 {
        Seq::empty()
    } else {
        scan_kept_now(s) + scan_trace(
            scan_next(s, scan_event(s, mem, loads)),
            mem,
            loads,
            (fuel - 1) as nat,
        )
    }
}

/// The controller in slot `i` (slots are 0x78 bytes apart) of the list whose
/// first chunk is at `list_entry`; a failed read counts as zero.
pub open spec fn slot_controller(mem: Memory, list_entry: usize, i: int) -> usize {
    mem_usize(mem, list_entry, i * 0x78).unwrap_or(0)
}

/// The pawn handle of the controller in slot `i`, 0x7EC bytes into it.
pub open spec fn slot_handle(mem: Memory, list_entry: usize, i: int) -> usize {
    mem_usize(mem, slot_controller(mem, list_entry, i), 0x7EC).unwrap_or(0)
}

/// The chunk of the entity list that the pawn handle in slot `i` points
/// into: the handle's low 15 bits, shifted right by 9, pick one of 64
/// pointers after the first 0x10 bytes of the list.
pub open spec fn slot_chunk(mem: Memory, list_entry: usize, entity_list: usize, i: int) -> usize {
    let h = slot_handle(mem, list_entry, i);
    mem_usize(mem, entity_list, 8 * ((h & 0x7FFF) >> 9) + 0x10).unwrap_or(0)
}

/// The pawn that the pawn handle in slot `i` points to: its low 9 bits pick
/// one of the chunk's 0x78-byte slots.
pub open spec fn slot_pawn(mem: Memory, list_entry: usize, entity_list: usize, i: int) -> usize {
    let h = slot_handle(mem, list_entry, i);
    mem_usize(mem, slot_chunk(mem, list_entry, entity_list, i), 0x78 * (h & 0x1FF)).unwrap_or(0)
}

/// Slot `i` holds a player that is kept: it is not the local player's slot,
/// its controller and pawn handle are not zero, and its player loads.
pub open spec fn slot_kept(mem: Memory, loads: Loads, list_entry: usize, entity_list: usize, i: int) -> bool {
    &&& i != LOCAL_PLAYER_SLOT
    &&& slot_controller(mem, list_entry, i) != 0
    &&& slot_handle(mem, list_entry, i) != 0
    &&& loads(slot_controller(mem, list_entry, i), slot_pawn(mem, list_entry, entity_list, i))
}

/// The players kept from the first `k` slots, in slot order.
pub open spec fn kept_players(
    mem: Memory,
    loads: Loads,
    list_entry: usize,
    entity_list: usize,
    k: nat,
) -> Seq<(usize, usize)>
    decreases k,
{
    if k == 0 {
        Seq::empty()
    } else {
        let i = k - 1;
        kept_players(mem, loads, list_entry, entity_list, (k - 1) as nat) + if slot_kept(
            mem,
            loads,
            list_entry,
            entity_list,
            i,
        ) {
            seq![(slot_controller(mem, list_entry, i), slot_pawn(mem, list_entry, entity_list, i))]
        } else {
            Seq::empty()
        }
    }
}

/// The players a whole walk over the list keeps: none when either pointer
/// is zero, otherwise those of every kept slot.
pub open spec fn walk_players(mem: Memory, loads: Loads, list_entry: usize, entity_list: usize) -> Seq<
    (usize, usize),
> {
    if list_entry == 0 || entity_list == 0 {
        Seq::empty()
    } else {
        kept_players(mem, loads, list_entry, entity_list, ENTITY_SLOTS as nat)
    }
}

/// A walk that publishes everything it finds, in state `s`, agrees with the
/// slots that memory `mem` holds: it has kept the players of the slots it
/// passed, and the values it holds for the current slot are the ones read
/// from there.
pub open spec fn scan_tracks(s: ScanState, mem: Memory, loads: Loads, list_entry: usize, entity_list: usize) -> bool {
    let i = s.index as int;
    let st = s.stage;
    &&& scan_inv(s)
    &&& s.list_entry == list_entry && s.entity_list == entity_list && !s.local_player_only
    &&& st != ScanStage::Returned
    &&& (list_entry == 0 || entity_list == 0) ==> st == ScanStage::Controller && s.index == 0
    &&& s.kept == kept_players(mem, loads, list_entry, entity_list, s.index as nat).len()
    &&& (st is PawnHandle || st is Chunk || st is Pawn || st is Load || st is Promote || st is Keep)
        ==> s.controller == slot_controller(mem, list_entry, i) && s.controller != 0
    &&& (st is Chunk || st is Pawn || st is Load || st is Promote || st is Keep) ==> s.pawn_handle
        == slot_handle(mem, list_entry, i) && s.pawn_handle != 0
    &&& (st is Pawn || st is Load || st is Promote || st is Keep) ==> s.chunk == slot_chunk(
        mem,
        list_entry,
        entity_list,
        i,
    )
    &&& (st is Load || st is Promote || st is Keep) ==> s.pawn == slot_pawn(
        mem,
        list_entry,
        entity_list,
        i,
    )
    &&& (st is Promote || st is Keep) ==> loads(s.controller, s.pawn)
}

proof fn lemma_scan_tracks_step(s: ScanState, mem: Memory, loads: Loads, list_entry: usize, entity_list: usize)
    requires
        scan_tracks(s, mem, loads, list_entry, entity_list),
    ensures
        ({
            let t = scan_next(s, scan_event(s, mem, loads));
            &&& scan_tracks(t, mem, loads, list_entry, entity_list)
            &&& kept_players(mem, loads, list_entry, entity_list, s.index as nat) + scan_kept_now(s)
                == kept_players(mem, loads, list_entry, entity_list, t.index as nat)
        }),
{
    let t = scan_next(s, scan_event(s, mem, loads));
    let before = kept_players(mem, loads, list_entry, entity_list, s.index as nat);
    lemma_scan_inv(s, scan_event(s, mem, loads));
    if t.index != s.index {
        assert(t.index == s.index + 1);
        assert(kept_players(mem, loads, list_entry, entity_list, t.index as nat) == before + if slot_kept(
            mem,
            loads,
            list_entry,
            entity_list,
            s.index as int,
        ) {
            seq![(slot_controller(mem, list_entry, s.index as int), slot_pawn(mem, list_entry, entity_list, s.index as int))]
        } else {
            Seq::empty()
        });
        if s.stage == ScanStage::Keep {
            assert(before + scan_kept_now(s) == kept_players(mem, loads, list_entry, entity_list, t.index as nat));
        } else {
            assert(before + scan_kept_now(s) =~= before);
            assert(before + Seq::<(usize, usize)>::empty() =~= before);
        }
    } else {
        assert(before + scan_kept_now(s) =~= before);
    }
}

proof fn lemma_scan_tracks_run(
    s: ScanState,
    mem: Memory,
    loads: Loads,
    list_entry: usize,
    entity_list: usize,
    fuel: nat,
)
    requires
        scan_tracks(s, mem, loads, list_entry, entity_list),
    ensures
        ({
            let t = scan_run(s, mem, loads, fuel);
            &&& scan_tracks(t, mem, loads, list_entry, entity_list)
            &&& kept_players(mem, loads, list_entry, entity_list, s.index as nat) + scan_trace(
                s,
                mem,
                loads,
                fuel,
            ) == kept_players(mem, loads, list_entry, entity_list, t.index as nat)
        }),
    decreases fuel,
{
    if fuel > 0 {
        let n = scan_next(s, scan_event(s, mem, loads));
        lemma_scan_tracks_step(s, mem, loads, list_entry, entity_list);
        lemma_scan_tracks_run(n, mem, loads, list_entry, entity_list, (fuel - 1) as nat);
        let a = kept_players(mem, loads, list_entry, entity_list, s.index as nat);
        let b = scan_kept_now(s);
        let c = scan_trace(n, mem, loads, (fuel - 1) as nat);
        assert(a + (b + c) =~= (a + b) + c);
    } else {
        assert(kept_players(mem, loads, list_entry, entity_list, s.index as nat) + Seq::<
            (usize, usize),
        >::empty() =~= kept_players(mem, loads, list_entry, entity_list, s.index as nat));
    }
}

/// A walk asked for every player, run against memory `mem` with the players
/// that load being those `loads` says, that ends by publishing has asked to
/// keep exactly the players of the slots other than the local player's
/// whose controller and pawn handle are not zero and whose player loads, in
/// slot order, and publishes their number; with either pointer zero it
/// keeps none.
pub proof fn lemma_scan_publishes(list_entry: usize, entity_list: usize, mem: Memory, loads: Loads, fuel: nat)
    ensures
        ({
            let start = scan_start(list_entry, entity_list, false);
            let end = scan_run(start, mem, loads, fuel);
            scan_action(end) matches ScanAction::Publish(n) ==> {
                &&& scan_trace(start, mem, loads, fuel) == walk_players(mem, loads, list_entry, entity_list)
                &&& n == walk_players(mem, loads, list_entry, entity_list).len()
            }
        }),
{
    let start = scan_start(list_entry, entity_list, false);
    assert(kept_players(mem, loads, list_entry, entity_list, 0) =~= Seq::<(usize, usize)>::empty());
    lemma_scan_inv(start, ScanEvent::Done);
    lemma_scan_tracks_run(start, mem, loads, list_entry, entity_list, fuel);
    assert(Seq::<(usize, usize)>::empty() + scan_trace(start, mem, loads, fuel) =~= scan_trace(start, mem, loads, fuel));
}

/// How many steps at most a walk asked for every player takes, from state
/// `s`, to end.
pub open spec fn scan_rank(s: ScanState) -> int {
    let left = 6 * (ENTITY_SLOTS - s.index);
    match s.stage {
        ScanStage::Controller => left,
        ScanStage::PawnHandle => left - 1,
        ScanStage::Chunk => left - 2,
        ScanStage::Pawn => left - 3,
        ScanStage::Load => left - 4,
        ScanStage::Promote | ScanStage::Keep => left - 5,
        ScanStage::Returned | ScanStage::Faulted => 0,
    }
}

proof fn lemma_scan_run_ends(s: ScanState, mem: Memory, loads: Loads, fuel: nat)
    requires
        scan_inv(s),
        !s.local_player_only,
        s.stage != ScanStage::Returned,
        scan_rank(s) <= fuel,
    ensures
        ({
            let a = scan_action(scan_run(s, mem, loads, fuel));
            a is Publish || a is Fault
        }),
    decreases fuel,
{
    let a = scan_action(s);
    if a is Publish || a is Fault {
        lemma_scan_run_stays(s, mem, loads, fuel);
    } else {
        let n = scan_next(s, scan_event(s, mem, loads));
        lemma_scan_inv(s, scan_event(s, mem, loads));
        assert(scan_rank(n) < scan_rank(s));
        lemma_scan_run_ends(n, mem, loads, (fuel - 1) as nat);
    }
}

proof fn lemma_scan_run_stays(s: ScanState, mem: Memory, loads: Loads, fuel: nat)
    requires
        scan_action(s) is Publish || scan_action(s) is Fault,
    ensures
        scan_run(s, mem, loads, fuel) == s,
    decreases fuel,
{
    if fuel > 0 {
        lemma_scan_run_stays(s, mem, loads, (fuel - 1) as nat);
    }
}

/// A walk asked for every player always ends, whatever memory holds and
/// whichever players load: within six steps per slot it publishes, unless
/// an address does not fit in `usize` first.
pub proof fn lemma_scan_ends(list_entry: usize, entity_list: usize, mem: Memory, loads: Loads)
    ensures
        ({
            let a = scan_action(
                scan_run(scan_start(list_entry, entity_list, false), mem, loads, 6 * ENTITY_SLOTS as nat),
            );
            a is Publish || a is Fault
        }),
{
    let start = scan_start(list_entry, entity_list, false);
    lemma_scan_inv(start, ScanEvent::Done);
    lemma_scan_run_ends(start, mem, loads, 6 * ENTITY_SLOTS as nat);
}

/// What each read of the walk asks for: the controller of slot `i` as a
/// `usize` at `list_entry + 0x78 * i`; its pawn handle `h` at the controller
/// + 0x7EC; the chunk at `entity_list + 8 * ((h & 0x7FFF) >> 9) + 0x10`,
/// which depends only on the handle's low 15 bits and lies within the first
/// 64 pointers; the pawn at `chunk + 0x78 * (h & 0x1FF)`. Each is a fault
/// when its address does not fit in `usize`. Past the last slot, or with a
/// null list pointer, the walk publishes what it kept.
pub proof fn lemma_scan_reads(s: ScanState)
    ensures
        s.stage == ScanStage::Controller ==> scan_action(s) == (if s.index >= 64 || s.list_entry
            == 0 || s.entity_list == 0 {
            ScanAction::Publish(s.kept)
        } else if s.list_entry + 0x78 * s.index <= usize::MAX {
            ScanAction::Read(
                ReadRequest {
                    address: (s.list_entry + 0x78 * s.index) as usize,
                    kind: ReadKind::Usize,
                },
            )
        } else {
            ScanAction::Fault
        }),
        s.stage == ScanStage::PawnHandle ==> scan_action(s) == (if s.controller + 0x7EC
            <= usize::MAX {
            ScanAction::Read(
                ReadRequest { address: (s.controller + 0x7EC) as usize, kind: ReadKind::Usize },
            )
        } else {
            ScanAction::Fault
        }),
        s.stage == ScanStage::Chunk ==> ({
            let h = s.pawn_handle;
            scan_action(s) == (if s.entity_list + 8 * ((h & 0x7FFF) >> 9) + 0x10 <= usize::MAX {
                ScanAction::Read(
                    ReadRequest {
                        address: (s.entity_list + 8 * ((h & 0x7FFF) >> 9) + 0x10) as usize,
                        kind: ReadKind::Usize,
                    },
                )
            } else {
                ScanAction::Fault
            })
        }),
        s.stage == ScanStage::Pawn ==> ({
            let h = s.pawn_handle;
            scan_action(s) == (if s.chunk + 0x78 * (h & 0x1FF) <= usize::MAX {
                ScanAction::Read(
                    ReadRequest {
                        address: (s.chunk + 0x78 * (h & 0x1FF)) as usize,
                        kind: ReadKind::Usize,
                    },
                )
            } else {
                ScanAction::Fault
            })
        }),
        s.stage == ScanStage::Load ==> scan_action(s) == (ScanAction::LoadEntity {
            controller: s.controller,
            pawn: s.pawn,
        }),
        s.stage == ScanStage::Promote ==> scan_action(s) == ScanAction::UseAsLocalPlayer,
        s.stage == ScanStage::Keep ==> scan_action(s) == ScanAction::Keep,
        s.stage == ScanStage::Returned ==> scan_action(s) == ScanAction::Return(1),
        s.stage == ScanStage::Faulted ==> scan_action(s) == ScanAction::Fault,
        chunk_offset(s.pawn_handle) == chunk_offset(s.pawn_handle & 0x7FFF),
        0x10 <= chunk_offset(s.pawn_handle) < 8 * 64 + 0x10,
        0 <= slot_offset(s.pawn_handle) < 0x78 * 512,
{
    let h = s.pawn_handle;
    assert((h & 0x7FFF) >> 9 < 64) by (bit_vector);
    assert(((h & 0x7FFF) & 0x7FFF) == h & 0x7FFF) by (bit_vector);
    assert(h & 0x1FF < 512) by (bit_vector);
}

/// How the walk moves on with what it is handed: a null controller or pawn
/// handle (or a failed read) skips the slot; the chunk and the pawn are
/// taken as read (zero when the read failed); a player that does not load
/// skips the slot; a loaded player in slot 1 is handed over as the local
/// player, then the walk ends there when it was asked for the local player
/// alone and moves on to slot 2 otherwise; a loaded player in any other slot
/// is kept, counted, and the walk moves to the next slot.
pub proof fn lemma_scan_steps(s: ScanState, event: ScanEvent)
    requires
        scan_action(s) is Read || scan_action(s) is LoadEntity || scan_action(s) is UseAsLocalPlayer
            || scan_action(s) is Keep,
    ensures
        ({
            let t = scan_next(s, event);
            let next_slot = (ScanState { stage: ScanStage::Controller, index: (s.index + 1) as usize, ..s });
            &&& s.stage == ScanStage::Controller ==> (event matches ScanEvent::Read(w) ==> t == match w {
                Some(Word::Usize(c)) => if c != 0 {
                    (ScanState { stage: ScanStage::PawnHandle, controller: c, ..s })
                } else {
                    next_slot
                },
                _ => next_slot,
            })
            &&& s.stage == ScanStage::PawnHandle ==> (event matches ScanEvent::Read(w) ==> t == match w {
                Some(Word::Usize(h)) => if h != 0 {
                    (ScanState { stage: ScanStage::Chunk, pawn_handle: h, ..s })
                } else {
                    next_slot
                },
                _ => next_slot,
            })
            &&& s.stage == ScanStage::Chunk ==> (event matches ScanEvent::Read(w) ==> t == (ScanState {
                stage: ScanStage::Pawn,
                chunk: match w {
                    Some(Word::Usize(c)) => c,
                    _ => 0,
                },
                ..s
            }))
            &&& s.stage == ScanStage::Pawn ==> (event matches ScanEvent::Read(w) ==> t == (ScanState {
                stage: ScanStage::Load,
                pawn: match w {
                    Some(Word::Usize(p)) => p,
                    _ => 0,
                },
                ..s
            }))
            &&& s.stage == ScanStage::Load ==> (event matches ScanEvent::Loaded(ok) ==> t == (if !ok {
                next_slot
            } else if s.index == 1 {
                (ScanState { stage: ScanStage::Promote, ..s })
            } else {
                (ScanState { stage: ScanStage::Keep, ..s })
            }))
            &&& s.stage == ScanStage::Promote ==> (event is Done ==> t == (if s.local_player_only {
                (ScanState { stage: ScanStage::Returned, ..s })
            } else {
                next_slot
            }))
            &&& s.stage == ScanStage::Keep ==> (event is Done ==> t == (ScanState {
                kept: (s.kept + 1) as usize,
                ..next_slot
            }))
        }),
{
}

} // verus!
