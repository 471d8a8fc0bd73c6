use vstd::prelude::*;
use vstd::string::*;
use crate::memory::{
    add_offset, as_i32, as_u8, as_usize, offset_address, word_i32, word_u8, word_usize, ReadKind,
    ReadRequest, Word,
};
use crate::offsets;
use crate::text::{contains_seq, contains_str, occurs_at};

verus! {

/// Options of the trigger: whether it shoots at teammates, at enemies, and
/// how long it waits before it looks at what is under the crosshair.
#[derive(PartialEq, Eq, Structural, Clone, Copy, Debug)]
pub struct Trigger {
    pub team: bool,
    pub enemy: bool,
    pub delay_ms: u64,
}

impl Trigger {
    /// The options the trigger starts with: enemies only, after 300 ms.
    pub fn new() -> (res: Self)
        ensures
            !res.team,
            res.enemy,
            res.delay_ms == 300,
    {
        Trigger { team: false, enemy: true, delay_ms: 300 }
    }
}

/// The characters of `revolver`.
pub open spec fn revolver_name() -> Seq<char> {
    seq!['r', 'e', 'v', 'o', 'l', 'v', 'e', 'r']
}

/// A key is held down when the state the system reports for it has its
/// most significant bit set.
pub open spec fn key_held(state: i16) -> bool {
    state & (0x8000u16 as i16) != 0
}

/// The key state says "held" exactly when it is negative.
pub proof fn lemma_key_held_is_negative(state: i16)
    ensures
        key_held(state) <==> state < 0,
{
    assert((state & (0x8000u16 as i16) != 0) <==> state < 0) by (bit_vector);
}

/// Whether a target is one the options let the trigger shoot at: a teammate
/// when `team` is set, an enemy when `enemy` is set.
pub open spec fn may_shoot(settings: Trigger, teammate: bool) -> bool {
    if teammate {
        settings.team
    } else {
        settings.enemy
    }
}

/// The offset, from the entity list, of the chunk that entity index `id` points into.
pub open spec fn aimed_chunk_offset(id: usize) -> int {
    8 * (id >> 9) + 0x10
}

/// The offset, inside its chunk, of the slot of entity index `id`.
pub open spec fn aimed_slot_offset(id: usize) -> int {
    120 * (id & 0x1FF)
}

/// How long to wait.
#[derive(PartialEq, Eq, Structural, Clone, Copy, Debug)]
pub enum Delay {
    Secs(u64),
    Millis(u64),
    Nanos(u64),
}

/// Where the trigger stands.
#[derive(PartialEq, Eq, Structural, Clone, Copy, Debug)]
pub enum TriggerStage {
    /// At the top of its loop.
    Top,
    /// Waiting, then back to the top.
    Resting(Delay),
    ReadKey,
    LoadSettings,
    /// Waiting for the delay of the options before looking at the crosshair.
    Delaying,
    AimedId,
    Entry,
    Target,
    TargetTeam,
    LoadWeapon,
    /// Pressing the button, to hold it this long.
    Press(Delay),
    /// Holding the button down.
    Holding(Delay),
    Release,
    Stopped,
    /// An address did not fit in `usize`.
    Faulted,
}

/// What the caller reports back to the trigger.
#[derive(Debug)]
pub enum TriggerEvent {
    /// The local player's pawn and team, as the entity walk last left them.
    LocalPlayer { pawn: usize, team: u8 },
    /// The entity list pointer, as last published.
    EntityList(usize),
    /// Whether the overlay asked the program to stop.
    Abort(bool),
    /// The state the system reports for the trigger key.
    Key(i16),
    /// The options of the trigger, as the overlay last left them.
    Settings(Trigger),
    /// The result of the read asked for.
    Read(Option<Word>),
    /// The name of the local player's weapon.
    Weapon(String),
    /// The wait asked for is over.
    Resumed,
    /// The mouse button was pressed or released, as asked.
    Done,
}

/// What the caller does next.
#[derive(PartialEq, Eq, Structural, Clone, Copy, Debug)]
pub enum TriggerAction {
    LoadLocalPlayer,
    LoadEntityList,
    CheckAbort,
    ReadKey,
    LoadSettings,
    Read(ReadRequest),
    LoadWeapon,
    Wait(Delay),
    PressButton,
    ReleaseButton,
    Stop,
    Fault,
}

/// The trigger: it shoots when the key is held and the crosshair rests on
/// a player the options allow.
#[derive(PartialEq, Eq, Structural, Clone, Copy, Debug)]
pub struct TriggerBot {
    pub stage: TriggerStage,
    pub local_pawn: usize,
    pub local_team: u8,
    pub entity_list: usize,
    pub settings: Trigger,
    /// The state of the trigger key read last.
    pub key: i16,
    /// The entity index under the crosshair.
    pub aimed_id: i32,
    /// The chunk of the entity list that holds the aimed entity.
    pub entry: usize,
    /// The aimed entity.
    pub target: usize,
    /// The team byte of the aimed entity.
    pub target_team: u8,
}

/// A read of `kind` at `base + offset`, or a fault when that address does not fit.
pub open spec fn trigger_read(base: usize, offset: int, kind: ReadKind) -> TriggerAction {
    match offset_address(base, offset) {
        Some(address) => TriggerAction::Read(ReadRequest { address, kind }),
        None => TriggerAction::Fault,
    }
}

/// What the trigger in state `s` asks for.
pub open spec fn trigger_action(s: TriggerBot) -> TriggerAction {
    match s.stage {
        TriggerStage::Top => {
            if s.local_pawn == 0 {
                TriggerAction::LoadLocalPlayer
            } else if s.entity_list == 0 {
                TriggerAction::LoadEntityList
            } else {
                TriggerAction::CheckAbort
            }
        },
        TriggerStage::Resting(d) => TriggerAction::Wait(d),
        TriggerStage::ReadKey => TriggerAction::ReadKey,
        TriggerStage::LoadSettings => TriggerAction::LoadSettings,
        TriggerStage::Delaying => TriggerAction::Wait(Delay::Millis(s.settings.delay_ms)),
        TriggerStage::AimedId => trigger_read(
            s.local_pawn,
            offsets::m_iIDEntIndex as int,
            ReadKind::I32,
        ),
        TriggerStage::Entry => trigger_read(
            s.entity_list,
            aimed_chunk_offset(s.aimed_id as usize),
            ReadKind::Usize,
        ),
        TriggerStage::Target => trigger_read(
            s.entry,
            aimed_slot_offset(s.aimed_id as usize),
            ReadKind::Usize,
        ),
        TriggerStage::TargetTeam => trigger_read(
            s.target,
            offsets::m_iTeamNum as int,
            ReadKind::U8,
        ),
        TriggerStage::LoadWeapon => TriggerAction::LoadWeapon,
        TriggerStage::Press(_) => TriggerAction::PressButton,
        TriggerStage::Holding(d) => TriggerAction::Wait(d),
        TriggerStage::Release => TriggerAction::ReleaseButton,
        TriggerStage::Stopped => TriggerAction::Stop,
        TriggerStage::Faulted => TriggerAction::Fault,
    }
}

/// The trigger in state `s` moved to `stage`.
pub open spec fn trigger_goto(s: TriggerBot, stage: TriggerStage) -> TriggerBot {
    TriggerBot { stage, ..s }
}

/// How long the button stays down: long enough for the revolver to fire,
/// barely at all for any other weapon.
pub open spec fn hold_for(weapon: Seq<char>) -> Delay {
    if contains_seq(weapon, revolver_name()) {
        Delay::Millis(210)
    } else {
        Delay::Nanos(150)
    }
}

/// The state the trigger in state `s` reaches from the top of its loop with `event`.
pub open spec fn trigger_next_top(s: TriggerBot, event: TriggerEvent) -> TriggerBot {
    match (trigger_action(s), event) {
        (TriggerAction::LoadLocalPlayer, TriggerEvent::LocalPlayer { pawn, team }) => TriggerBot {
            stage: TriggerStage::Resting(Delay::Secs(1)),
            local_pawn: pawn,
            local_team: team,
            ..s
        },
        (TriggerAction::LoadEntityList, TriggerEvent::EntityList(list)) => TriggerBot {
            stage: TriggerStage::Resting(Delay::Secs(1)),
            entity_list: list,
            ..s
        },
        (TriggerAction::CheckAbort, TriggerEvent::Abort(stop)) => {
            if stop {
                trigger_goto(s, TriggerStage::Stopped)
            } else {
                trigger_goto(s, TriggerStage::ReadKey)
            }
        },
        _ => s,
    }
}

/// The state the trigger in state `s` reaches with `event`. An event of
/// another sort than the one asked for changes nothing; a failed read counts
/// as "nothing under the crosshair"; a trigger that stopped or faulted
/// stays so.
pub open spec fn trigger_next(s: TriggerBot, event: TriggerEvent) -> TriggerBot {
    if trigger_action(s) is Stop || trigger_action(s) is Fault {
        s
    } else {
        match s.stage {
            TriggerStage::Top => trigger_next_top(s, event),
            TriggerStage::Resting(_) => match event {
                TriggerEvent::Resumed => trigger_goto(s, TriggerStage::Top),
                _ => s,
            },
            TriggerStage::ReadKey => match event {
                TriggerEvent::Key(state) => if key_held(state) {
                    TriggerBot { stage: TriggerStage::LoadSettings, key: state, ..s }
                } else {
                    TriggerBot { stage: TriggerStage::Resting(Delay::Millis(10)), key: state, ..s }
                },
                _ => s,
            },
            TriggerStage::LoadSettings => match event {
                TriggerEvent::Settings(settings) => if !settings.team && !settings.enemy {
                    TriggerBot { stage: TriggerStage::Top, settings, ..s }
                } else {
                    TriggerBot { stage: TriggerStage::Delaying, settings, ..s }
                },
                _ => s,
            },
            TriggerStage::Delaying => match event {
                TriggerEvent::Resumed => trigger_goto(s, TriggerStage::AimedId),
                _ => s,
            },
            TriggerStage::AimedId => match event {
                TriggerEvent::Read(w) => {
                    let id = as_i32(w).unwrap_or(-1i32);
                    if id == -1 {
                        trigger_goto(s, TriggerStage::Top)
                    } else {
                        TriggerBot { stage: TriggerStage::Entry, aimed_id: id, ..s }
                    }
                },
                _ => s,
            },
            TriggerStage::Entry => match event {
                TriggerEvent::Read(w) => {
                    let entry = as_usize(w).unwrap_or(0);
                    if entry == 0 {
                        trigger_goto(s, TriggerStage::Top)
                    } else {
                        TriggerBot { stage: TriggerStage::Target, entry, ..s }
                    }
                },
                _ => s,
            },
            TriggerStage::Target => match event {
                TriggerEvent::Read(w) => {
                    let entity = as_usize(w).unwrap_or(0);
                    if entity == 0 {
                        trigger_goto(s, TriggerStage::Top)
                    } else {
                        TriggerBot { stage: TriggerStage::TargetTeam, target: entity, ..s }
                    }
                },
                _ => s,
            },
            TriggerStage::TargetTeam => match event {
                TriggerEvent::Read(w) => {
                    match as_u8(w) {
                        Some(team) => TriggerBot {
                            stage: if may_shoot(s.settings, team == s.local_team) {
                                TriggerStage::LoadWeapon
                            } else {
                                TriggerStage::Top
                            },
                            target_team: team,
                            ..s
                        },
                        None => trigger_goto(s, TriggerStage::Top),
                    }
                },
                _ => s,
            },
            TriggerStage::LoadWeapon => match event {
                TriggerEvent::Weapon(weapon) => trigger_goto(
                    s,
                    TriggerStage::Press(hold_for(weapon@)),
                ),
                _ => s,
            },
            TriggerStage::Press(d) => match event {
                TriggerEvent::Done => trigger_goto(s, TriggerStage::Holding(d)),
                _ => s,
            },
            TriggerStage::Holding(_) => match event {
                TriggerEvent::Resumed => trigger_goto(s, TriggerStage::Release),
                _ => s,
            },
            TriggerStage::Release => match event {
                TriggerEvent::Done => trigger_goto(s, TriggerStage::Top),
                _ => s,
            },
            _ => s,
        }
    }
}

/// A read of `kind` at `base + offset`, or a fault when that address does not fit.
fn trigger_request(base: usize, offset: usize, kind: ReadKind) -> (a: TriggerAction)
    ensures
        a == trigger_read(base, offset as int, kind),
{
    match add_offset(base, offset) {
        Some(address) => TriggerAction::Read(ReadRequest { address, kind }),
        None => TriggerAction::Fault,
    }
}

/// Whether the key state says "held".
pub fn is_key_held(state: i16) -> (held: bool)
    ensures
        held == key_held(state),
{
    state & (0x8000u16 as i16) != 0
}

/// How long to hold the button down with `weapon` in hand.
pub fn hold_time(weapon: &str) -> (d: Delay)
    ensures
        d == hold_for(weapon@),
{
    let revolver = "revolver";
    proof {
        reveal_strlit("revolver");
        assert(revolver@ =~= revolver_name());
    }
    if contains_str(weapon, revolver) {
        Delay::Millis(210)
    } else {
        Delay::Nanos(150)
    }
}

impl TriggerBot {
    /// A trigger that knows neither the local player nor the entity list
    /// yet, with the options it starts with.
    pub fn new() -> (res: (Self, TriggerAction))
        ensures
            res.0 == trigger_start(),
            res.1 == trigger_action(res.0),
    {
        let bot = TriggerBot {
            stage: TriggerStage::Top,
            local_pawn: 0,
            local_team: 0,
            entity_list: 0,
            settings: Trigger::new(),
            key: 0,
            aimed_id: 0,
            entry: 0,
            target: 0,
            target_team: 0,
        };
        let action = bot.action();
        (bot, action)
    }

    /// What the trigger asks for.
    pub fn action(&self) -> (a: TriggerAction)
        ensures
            a == trigger_action(*self),
    {
        match self.stage {
            TriggerStage::Top => {
                if self.local_pawn == 0 {
                    TriggerAction::LoadLocalPlayer
                } else if self.entity_list == 0 {
                    TriggerAction::LoadEntityList
                } else {
                    TriggerAction::CheckAbort
                }
            },
            TriggerStage::Resting(d) => TriggerAction::Wait(d),
            TriggerStage::ReadKey => TriggerAction::ReadKey,
            TriggerStage::LoadSettings => TriggerAction::LoadSettings,
            TriggerStage::Delaying => TriggerAction::Wait(Delay::Millis(self.settings.delay_ms)),
            TriggerStage::AimedId => trigger_request(
                self.local_pawn,
                offsets::m_iIDEntIndex,
                ReadKind::I32,
            ),
            TriggerStage::Entry => {
                let id = self.aimed_id as usize;
                assert(id >> 9 == id / 512) by (bit_vector);
                trigger_request(self.entity_list, 8 * (id >> 9) + 0x10, ReadKind::Usize)
            },
            TriggerStage::Target => {
                let id = self.aimed_id as usize;
                assert(id & 0x1FF <= 511) by (bit_vector);
                trigger_request(self.entry, 120 * (id & 0x1FF), ReadKind::Usize)
            },
            TriggerStage::TargetTeam => trigger_request(
                self.target,
                offsets::m_iTeamNum,
                ReadKind::U8,
            ),
            TriggerStage::LoadWeapon => TriggerAction::LoadWeapon,
            TriggerStage::Press(_) => TriggerAction::PressButton,
            TriggerStage::Holding(d) => TriggerAction::Wait(d),
            TriggerStage::Release => TriggerAction::ReleaseButton,
            TriggerStage::Stopped => TriggerAction::Stop,
            TriggerStage::Faulted => TriggerAction::Fault,
        }
    }

    /// Takes what the caller reports and says what comes next.
    pub fn step(&mut self, event: TriggerEvent) -> (a: TriggerAction)
        ensures
            *final(self) == trigger_next(*old(self), event),
            a == trigger_action(*final(self)),
    {
        let asked = self.action();
        let s = *self;
        let next = match asked {
            TriggerAction::Stop | TriggerAction::Fault => s,
            _ => match s.stage {
                TriggerStage::Top => match (asked, event) {
                    (TriggerAction::LoadLocalPlayer, TriggerEvent::LocalPlayer { pawn, team }) => TriggerBot {
                        stage: TriggerStage::Resting(Delay::Secs(1)),
                        local_pawn: pawn,
                        local_team: team,
                        ..s
                    },
                    (TriggerAction::LoadEntityList, TriggerEvent::EntityList(list)) => TriggerBot {
                        stage: TriggerStage::Resting(Delay::Secs(1)),
                        entity_list: list,
                        ..s
                    },
                    (TriggerAction::CheckAbort, TriggerEvent::Abort(stop)) => {
                        if stop {
                            TriggerBot { stage: TriggerStage::Stopped, ..s }
                        } else {
                            TriggerBot { stage: TriggerStage::ReadKey, ..s }
                        }
                    },
                    _ => s,
                },
                TriggerStage::Resting(_) => match event {
                    TriggerEvent::Resumed => TriggerBot { stage: TriggerStage::Top, ..s },
                    _ => s,
                },
                TriggerStage::ReadKey => match event {
                    TriggerEvent::Key(state) => if is_key_held(state) {
                        TriggerBot { stage: TriggerStage::LoadSettings, key: state, ..s }
                    } else {
                        TriggerBot { stage: TriggerStage::Resting(Delay::Millis(10)), key: state, ..s }
                    },
                    _ => s,
                },
                TriggerStage::LoadSettings => match event {
                    TriggerEvent::Settings(settings) => if !settings.team && !settings.enemy {
                        TriggerBot { stage: TriggerStage::Top, settings, ..s }
                    } else {
                        TriggerBot { stage: TriggerStage::Delaying, settings, ..s }
                    },
                    _ => s,
                },
                TriggerStage::Delaying => match event {
                    TriggerEvent::Resumed => TriggerBot { stage: TriggerStage::AimedId, ..s },
                    _ => s,
                },
                TriggerStage::AimedId => match event {
                    TriggerEvent::Read(w) => {
                        let id = word_i32(&w).unwrap_or(-1);
                        if id == -1 {
                            TriggerBot { stage: TriggerStage::Top, ..s }
                        } else {
                            TriggerBot { stage: TriggerStage::Entry, aimed_id: id, ..s }
                        }
                    },
                    _ => s,
                },
                TriggerStage::Entry => match event {
                    TriggerEvent::Read(w) => {
                        let entry = word_usize(&w).unwrap_or(0);
                        if entry == 0 {
                            TriggerBot { stage: TriggerStage::Top, ..s }
                        } else {
                            TriggerBot { stage: TriggerStage::Target, entry, ..s }
                        }
                    },
                    _ => s,
                },
                TriggerStage::Target => match event {
                    TriggerEvent::Read(w) => {
                        let entity = word_usize(&w).unwrap_or(0);
                        if entity == 0 {
                            TriggerBot { stage: TriggerStage::Top, ..s }
                        } else {
                            TriggerBot { stage: TriggerStage::TargetTeam, target: entity, ..s }
                        }
                    },
                    _ => s,
                },
                TriggerStage::TargetTeam => match event {
                    TriggerEvent::Read(w) => {
                        match word_u8(&w) {
                            Some(team) => {
                                let teammate = team == s.local_team;
                                let allowed = if teammate {
                                    s.settings.team
                                } else {
                                    s.settings.enemy
                                };
                                TriggerBot {
                                    stage: if allowed {
                                        TriggerStage::LoadWeapon
                                    } else {
                                        TriggerStage::Top
                                    },
                                    target_team: team,
                                    ..s
                                }
                            },
                            None => TriggerBot { stage: TriggerStage::Top, ..s },
                        }
                    },
                    _ => s,
                },
                TriggerStage::LoadWeapon => match event {
                    TriggerEvent::Weapon(weapon) => TriggerBot {
                        stage: TriggerStage::Press(hold_time(weapon.as_str())),
                        ..s
                    },
                    _ => s,
                },
                TriggerStage::Press(d) => match event {
                    TriggerEvent::Done => TriggerBot { stage: TriggerStage::Holding(d), ..s },
                    _ => s,
                },
                TriggerStage::Holding(_) => match event {
                    TriggerEvent::Resumed => TriggerBot { stage: TriggerStage::Release, ..s },
                    _ => s,
                },
                TriggerStage::Release => match event {
                    TriggerEvent::Done => TriggerBot { stage: TriggerStage::Top, ..s },
                    _ => s,
                },
                _ => s,
            },
        };
        *self = next;
        self.action()
    }
}

/// Whether the trigger in `s` is past the key check of the current round.
pub open spec fn past_key(s: TriggerBot) -> bool {
    match s.stage {
        TriggerStage::LoadSettings | TriggerStage::Delaying | TriggerStage::AimedId
        | TriggerStage::Entry | TriggerStage::Target | TriggerStage::TargetTeam
        | TriggerStage::LoadWeapon | TriggerStage::Press(_) | TriggerStage::Holding(_)
        | TriggerStage::Release => true,
        _ => false,
    }
}

/// Whether the trigger in `s` is past the options check of the current round.
pub open spec fn past_settings(s: TriggerBot) -> bool {
    past_key(s) && s.stage != TriggerStage::LoadSettings
}

/// Whether the trigger in `s` is past reading the aimed entity index.
pub open spec fn past_aim(s: TriggerBot) -> bool {
    past_settings(s) && s.stage != TriggerStage::Delaying && s.stage != TriggerStage::AimedId
}

/// Whether the trigger in `s` is past reading the chunk of the aimed entity.
pub open spec fn past_entry(s: TriggerBot) -> bool {
    past_aim(s) && s.stage != TriggerStage::Entry
}

/// Whether the trigger in `s` is past reading the aimed entity.
pub open spec fn past_target(s: TriggerBot) -> bool {
    past_entry(s) && s.stage != TriggerStage::Target
}

/// Whether the trigger in `s` has decided, this round, to shoot.
pub open spec fn shooting(s: TriggerBot) -> bool {
    past_target(s) && s.stage != TriggerStage::TargetTeam
}

/// What the trigger has established by each point of a round: from the key
/// check on it knows the local player and the entity list; after the key
/// check the key was held; after the options check an option is on; after
/// the aim read something is aimed at; then the chunk and the entity it
/// read are not null; and once it decides to shoot, the options allow
/// shooting at the aimed entity's team.
pub open spec fn trigger_inv(s: TriggerBot) -> bool {
    &&& (s.stage == TriggerStage::ReadKey || past_key(s)) ==> s.local_pawn != 0 && s.entity_list
        != 0
    &&& past_key(s) ==> key_held(s.key)
    &&& past_settings(s) ==> s.settings.team || s.settings.enemy
    &&& past_aim(s) ==> s.aimed_id != -1
    &&& past_entry(s) ==> s.entry != 0
    &&& past_target(s) ==> s.target != 0
    &&& shooting(s) ==> may_shoot(s.settings, s.target_team == s.local_team)
}

/// The state the trigger starts in.
pub open spec fn trigger_start() -> TriggerBot {
    TriggerBot {
        stage: TriggerStage::Top,
        local_pawn: 0,
        local_team: 0,
        entity_list: 0,
        settings: Trigger { team: false, enemy: true, delay_ms: 300 },
        key: 0,
        aimed_id: 0,
        entry: 0,
        target: 0,
        target_team: 0,
    }
}

/// The trigger starts in a state that keeps its invariant, and every step
/// keeps it.
pub proof fn lemma_trigger_inv(s: TriggerBot, event: TriggerEvent)
    ensures
        trigger_inv(trigger_start()),
        trigger_inv(s) ==> trigger_inv(trigger_next(s, event)),
{
}

/// The trigger presses the button only in a round where the key was held,
/// an option was on, something was aimed at, the chunk and the entity read
/// for it were not null, and the options allow shooting at that entity's
/// team; each of these was read in that round.
pub proof fn lemma_trigger_press_conditions(s: TriggerBot, event: TriggerEvent)
    requires
        trigger_inv(s),
        !(s.stage is Press),
        trigger_next(s, event).stage is Press,
    ensures
        ({
            let n = trigger_next(s, event);
            &&& s.stage == TriggerStage::LoadWeapon
            &&& n.local_pawn != 0 && n.entity_list != 0
            &&& key_held(n.key)
            &&& n.settings.team || n.settings.enemy
            &&& n.aimed_id != -1
            &&& n.entry != 0
            &&& n.target != 0
            &&& may_shoot(n.settings, n.target_team == n.local_team)
        }),
{
}

/// The trigger decides to shoot only right after reading the aimed entity's
/// team byte, and only when its options allow shooting at that team.
pub proof fn lemma_trigger_shoots_only_allowed(s: TriggerBot, event: TriggerEvent)
    requires
        s.stage != TriggerStage::LoadWeapon,
        trigger_next(s, event).stage == TriggerStage::LoadWeapon,
    ensures
        s.stage == TriggerStage::TargetTeam,
        trigger_action(s) == trigger_read(s.target, offsets::m_iTeamNum as int, ReadKind::U8),
        event matches TriggerEvent::Read(w) && as_u8(w) matches Some(team) && may_shoot(
            s.settings,
            team == s.local_team,
        ),
{
}

/// The button is pressed only right after the weapon in hand was looked
/// at, and is held as long as that weapon needs.
pub proof fn lemma_trigger_press_follows_weapon(s: TriggerBot, event: TriggerEvent)
    requires
        !(s.stage is Press),
        trigger_next(s, event).stage is Press,
    ensures
        s.stage == TriggerStage::LoadWeapon,
        event matches TriggerEvent::Weapon(weapon) && trigger_next(s, event).stage
            == TriggerStage::Press(hold_for(weapon@)),
{
}

/// A press is always followed by a hold of the time chosen at the press and
/// then a release, before the trigger does anything else: from a press,
/// hold or release, the trigger asks for nothing but these, never stops,
/// and moves only to the next of them (a release leads back to the top).
pub proof fn lemma_trigger_press_release(s: TriggerBot, event: TriggerEvent)
    ensures
        s.stage matches TriggerStage::Press(d) ==> {
            &&& trigger_action(s) == TriggerAction::PressButton
            &&& (trigger_next(s, event).stage == s.stage || trigger_next(s, event).stage
                == TriggerStage::Holding(d))
        },
        s.stage matches TriggerStage::Holding(d) ==> {
            &&& trigger_action(s) == TriggerAction::Wait(d)
            &&& (trigger_next(s, event).stage == s.stage || trigger_next(s, event).stage
                == TriggerStage::Release)
        },
        s.stage == TriggerStage::Release ==> {
            &&& trigger_action(s) == TriggerAction::ReleaseButton
            &&& (trigger_next(s, event).stage == s.stage || trigger_next(s, event).stage
                == TriggerStage::Top)
        },
{
}

/// The delay of the options is waited before the aim is read; a key that is
/// not held rests 10 ms with no shot; options that are both off send the
/// trigger straight back to the top, with no wait and no shot.
pub proof fn lemma_trigger_waits(s: TriggerBot, event: TriggerEvent)
    ensures
        s.stage != TriggerStage::AimedId && trigger_next(s, event).stage == TriggerStage::AimedId
            ==> s.stage == TriggerStage::Delaying && event is Resumed && trigger_action(s)
            == TriggerAction::Wait(Delay::Millis(s.settings.delay_ms)),
        s.stage == TriggerStage::ReadKey ==> (event matches TriggerEvent::Key(k) && !key_held(k)
            ==> trigger_next(s, event).stage == TriggerStage::Resting(Delay::Millis(10))),
        s.stage == TriggerStage::LoadSettings ==> (event matches TriggerEvent::Settings(o) && !o.team
            && !o.enemy ==> trigger_next(s, event).stage == TriggerStage::Top),
{
}

/// The local player and the entity list are taken once: once known (not
/// null) they never change.
pub proof fn lemma_trigger_takes_once(s: TriggerBot, event: TriggerEvent)
    ensures
        s.local_pawn != 0 ==> trigger_next(s, event).local_pawn == s.local_pawn
            && trigger_next(s, event).local_team == s.local_team,
        s.entity_list != 0 ==> trigger_next(s, event).entity_list == s.entity_list,
{
}

/// Once stopped, the trigger stays stopped and asks for nothing but to stop.
pub proof fn lemma_trigger_stop_is_final(s: TriggerBot, event: TriggerEvent)
    requires
        s.stage == TriggerStage::Stopped,
    ensures
        trigger_next(s, event) == s,
        trigger_action(trigger_next(s, event)) == TriggerAction::Stop,
{
}

/// Whether `event` is of the sort that the trigger in state `s` asks for (a
/// trigger that stopped or faulted takes anything).
pub open spec fn answers(s: TriggerBot, event: TriggerEvent) -> bool {
    match trigger_action(s) {
        TriggerAction::LoadLocalPlayer => event is LocalPlayer,
        TriggerAction::LoadEntityList => event is EntityList,
        TriggerAction::CheckAbort => event is Abort,
        TriggerAction::ReadKey => event is Key,
        TriggerAction::LoadSettings => event is Settings,
        TriggerAction::Read(_) => event is Read,
        TriggerAction::LoadWeapon => event is Weapon,
        TriggerAction::Wait(_) => event is Resumed,
        TriggerAction::PressButton | TriggerAction::ReleaseButton => event is Done,
        TriggerAction::Stop | TriggerAction::Fault => true,
    }
}

/// The trigger from state `s` after taking `events` in turn.
pub open spec fn trigger_run(s: TriggerBot, events: Seq<TriggerEvent>) -> TriggerBot
    decreases events.len(),
{
    if events.len() == 0 {
        s
    } else {
        trigger_run(trigger_next(s, events[0]), events.drop_first())
    }
}

/// Whether each of `events` is of the sort asked for by the trigger it is
/// handed to, starting from state `s`.
pub open spec fn answered(s: TriggerBot, events: Seq<TriggerEvent>) -> bool
    decreases events.len(),
{
    events.len() == 0 || (answers(s, events[0]) && answered(
        trigger_next(s, events[0]),
        events.drop_first(),
    ))
}

/// How many steps at most the trigger in state `s` takes, once it knows the
/// local player and the entity list, to come back to the top of its loop.
pub open spec fn round_rank(s: TriggerBot) -> nat {
    match s.stage {
        TriggerStage::Top | TriggerStage::Stopped | TriggerStage::Faulted => 0,
        TriggerStage::Resting(_) | TriggerStage::Release => 1,
        TriggerStage::Holding(_) => 2,
        TriggerStage::Press(_) => 3,
        TriggerStage::LoadWeapon => 4,
        TriggerStage::TargetTeam => 5,
        TriggerStage::Target => 6,
        TriggerStage::Entry => 7,
        TriggerStage::AimedId => 8,
        TriggerStage::Delaying => 9,
        TriggerStage::LoadSettings => 10,
        TriggerStage::ReadKey => 11,
    }
}

/// The trigger asks whether to stop only at the top of its loop and only
/// once it knows both the local player and the entity list; told there to
/// stop, it stops, and goes on with the round otherwise.
pub proof fn lemma_trigger_checks_abort_when_ready(s: TriggerBot)
    ensures
        trigger_action(s) is CheckAbort <==> (s.stage == TriggerStage::Top && s.local_pawn != 0
            && s.entity_list != 0),
        trigger_action(s) is CheckAbort ==> trigger_action(trigger_next(s, TriggerEvent::Abort(true)))
            == TriggerAction::Stop,
        trigger_action(s) is CheckAbort ==> trigger_action(trigger_next(s, TriggerEvent::Abort(false)))
            == TriggerAction::ReadKey,
{
}

/// A stopped trigger stays stopped whatever it is handed afterwards: it
/// never again asks for anything but to stop, so it presses no button.
pub proof fn lemma_trigger_stopped_run(s: TriggerBot, events: Seq<TriggerEvent>)
    requires
        s.stage == TriggerStage::Stopped,
    ensures
        trigger_run(s, events) == s,
    decreases events.len(),
{
    if events.len() > 0 {
        lemma_trigger_stopped_run(trigger_next(s, events[0]), events.drop_first());
    }
}

/// Every round comes back to the abort check: once the trigger knows the
/// local player and the entity list and has not stopped, whatever it is
/// handed (each event of the sort asked for), it asks again whether to stop
/// within `round_rank(s)` steps (at most eleven), unless an address
/// overflows first.
pub proof fn lemma_trigger_returns_to_abort_check(s: TriggerBot, events: Seq<TriggerEvent>) -> (k: nat)
    requires
        s.local_pawn != 0,
        s.entity_list != 0,
        s.stage != TriggerStage::Stopped,
        answered(s, events),
        round_rank(s) <= events.len(),
    ensures
        k <= round_rank(s),
        ({
            let t = trigger_run(s, events.take(k as int));
            trigger_action(t) is CheckAbort || trigger_action(t) is Fault
        }),
    decreases round_rank(s),
{
    if trigger_action(s) is CheckAbort || trigger_action(s) is Fault {
        assert(events.take(0) =~= Seq::<TriggerEvent>::empty());
        0
    } else {
        let n = trigger_next(s, events[0]);
        let rest = events.drop_first();
        assert(round_rank(n) < round_rank(s));
        let k1 = lemma_trigger_returns_to_abort_check(n, rest);
        let taken = events.take((k1 + 1) as int);
        assert(taken[0] == events[0]);
        assert(taken.drop_first() =~= rest.take(k1 as int));
        k1 + 1
    }
}

/// The aimed entity counts as a teammate exactly when its team byte `b`
/// equals the local player's team; the trigger goes on to shoot exactly
/// when that side is allowed: a teammate with the team option on, an enemy
/// with the enemy option on (whatever the team option says). Otherwise it
/// goes back to the top of its loop.
pub proof fn lemma_trigger_team_decides(s: TriggerBot, w: Option<Word>, b: u8)
    requires
        s.stage == TriggerStage::TargetTeam,
        trigger_action(s) is Read,
        as_u8(w) == Some(b),
    ensures
        ({
            let n = trigger_next(s, TriggerEvent::Read(w));
            &&& n.target_team == b
            &&& (n.stage == TriggerStage::LoadWeapon <==> ((b == s.local_team && s.settings.team) || (b
                != s.local_team && s.settings.enemy)))
            &&& n.stage != TriggerStage::LoadWeapon ==> n.stage == TriggerStage::Top
            &&& s.settings.enemy && b != s.local_team ==> n.stage == TriggerStage::LoadWeapon
            &&& s.settings.team && b == s.local_team ==> n.stage == TriggerStage::LoadWeapon
        }),
{
}

/// What each read of a round asks for: the aimed entity index as an `i32`
/// at the local pawn + 0x1544; the chunk as a `usize` at the entity list +
/// 8 * (index >> 9) + 0x10; the entity as a `usize` at the chunk + 120 *
/// (index & 0x1FF); its team as one byte at the entity + 0x3BF. Each is a
/// fault when its address does not fit in `usize`.
pub proof fn lemma_trigger_reads(s: TriggerBot)
    ensures
        s.stage == TriggerStage::AimedId ==> trigger_action(s) == (if s.local_pawn + 0x1544
            <= usize::MAX {
            TriggerAction::Read(
                ReadRequest { address: (s.local_pawn + 0x1544) as usize, kind: ReadKind::I32 },
            )
        } else {
            TriggerAction::Fault
        }),
        s.stage == TriggerStage::Entry ==> ({
            let id = s.aimed_id as usize;
            trigger_action(s) == (if s.entity_list + 8 * (id >> 9) + 0x10 <= usize::MAX {
                TriggerAction::Read(
                    ReadRequest {
                        address: (s.entity_list + 8 * (id >> 9) + 0x10) as usize,
                        kind: ReadKind::Usize,
                    },
                )
            } else {
                TriggerAction::Fault
            })
        }),
        s.stage == TriggerStage::Target ==> ({
            let id = s.aimed_id as usize;
            trigger_action(s) == (if s.entry + 120 * (id & 0x1FF) <= usize::MAX {
                TriggerAction::Read(
                    ReadRequest {
                        address: (s.entry + 120 * (id & 0x1FF)) as usize,
                        kind: ReadKind::Usize,
                    },
                )
            } else {
                TriggerAction::Fault
            })
        }),
        s.stage == TriggerStage::TargetTeam ==> trigger_action(s) == (if s.target + 0x3BF
            <= usize::MAX {
            TriggerAction::Read(
                ReadRequest { address: (s.target + 0x3BF) as usize, kind: ReadKind::U8 },
            )
        } else {
            TriggerAction::Fault
        }),
{
}

/// Once the trigger goes on to shoot, the weapon it is told of leads to a
/// press held as long as that weapon needs.
pub proof fn lemma_trigger_weapon_presses(s: TriggerBot, weapon: String)
    requires
        s.stage == TriggerStage::LoadWeapon,
    ensures
        trigger_next(s, TriggerEvent::Weapon(weapon)).stage == TriggerStage::Press(hold_for(weapon@)),
{
}

/// The button is held 210 ms when the weapon's name holds `revolver`
/// somewhere, and 150 ns otherwise.
pub proof fn lemma_hold_for(weapon: Seq<char>)
    ensures
        hold_for(weapon) == (if exists|i: int|
            0 <= i && i + 8 <= weapon.len() && #[trigger] weapon.subrange(i, i + 8) == seq![
                'r',
                'e',
                'v',
                'o',
                'l',
                'v',
                'e',
                'r',
            ] {
            Delay::Millis(210)
        } else {
            Delay::Nanos(150)
        }),
{
    let r = seq!['r', 'e', 'v', 'o', 'l', 'v', 'e', 'r'];
    assert(revolver_name() =~= r);
    if contains_seq(weapon, revolver_name()) {
        let i = choose|i: int| occurs_at(weapon, revolver_name(), i);
        assert(weapon.subrange(i, i + 8) == r);
    } else {
        assert forall|i: int|
            !(0 <= i && i + 8 <= weapon.len() && #[trigger] weapon.subrange(i, i + 8) == r) by {
            if 0 <= i && i + 8 <= weapon.len() && weapon.subrange(i, i + 8) == r {
                assert(occurs_at(weapon, revolver_name(), i));
            }
        }
    }
}

/// How a round moves on with what it reads, once the trigger knows the local
/// player and the entity list: a key state below zero (held) leads to the
/// options, otherwise to a 10 ms rest; options both off lead back to the
/// top, otherwise to the delay; an aimed index of -1, a null chunk, a null
/// entity or a failed read lead back to the top, anything else to the next
/// read.
pub proof fn lemma_trigger_round_steps(s: TriggerBot, event: TriggerEvent)
    ensures
        s.stage == TriggerStage::ReadKey ==> (event matches TriggerEvent::Key(k) ==> trigger_next(
            s,
            event,
        ).stage == (if k < 0 {
            TriggerStage::LoadSettings
        } else {
            TriggerStage::Resting(Delay::Millis(10))
        })),
        s.stage == TriggerStage::LoadSettings ==> (event matches TriggerEvent::Settings(o) ==> {
            &&& trigger_next(s, event).settings == o
            &&& trigger_next(s, event).stage == (if !o.team && !o.enemy {
                TriggerStage::Top
            } else {
                TriggerStage::Delaying
            })
        }),
        s.stage == TriggerStage::AimedId && trigger_action(s) is Read ==> (event matches TriggerEvent::Read(
            w,
        ) ==> trigger_next(s, event).stage == (if w matches Some(Word::I32(id)) && id != -1 {
            TriggerStage::Entry
        } else {
            TriggerStage::Top
        })),
        s.stage == TriggerStage::Entry && trigger_action(s) is Read ==> (event matches TriggerEvent::Read(
            w,
        ) ==> trigger_next(s, event).stage == (if w matches Some(Word::Usize(e)) && e != 0 {
            TriggerStage::Target
        } else {
            TriggerStage::Top
        })),
        s.stage == TriggerStage::Target && trigger_action(s) is Read ==> (event matches TriggerEvent::Read(
            w,
        ) ==> trigger_next(s, event).stage == (if w matches Some(Word::Usize(t)) && t != 0 {
            TriggerStage::TargetTeam
        } else {
            TriggerStage::Top
        })),
{
    lemma_key_held_is_negative(s.key);
    if let TriggerEvent::Key(k) = event {
        lemma_key_held_is_negative(k);
    }
}

/// Until it knows them, the trigger takes the local player (pawn and team)
/// and then the entity list as they are published, resting one second after
/// each; a rest, once over, leads back to the top; the delay of the options
/// is waited, in milliseconds, before the aim is read.
pub proof fn lemma_trigger_setup_steps(s: TriggerBot, event: TriggerEvent)
    ensures
        s.stage == TriggerStage::Top && s.local_pawn == 0 ==> {
            &&& trigger_action(s) == TriggerAction::LoadLocalPlayer
            &&& event matches TriggerEvent::LocalPlayer { pawn, team } ==> trigger_next(s, event) == (
            TriggerBot { stage: TriggerStage::Resting(Delay::Secs(1)), local_pawn: pawn, local_team: team, ..s })
        },
        s.stage == TriggerStage::Top && s.local_pawn != 0 && s.entity_list == 0 ==> {
            &&& trigger_action(s) == TriggerAction::LoadEntityList
            &&& event matches TriggerEvent::EntityList(list) ==> trigger_next(s, event) == (TriggerBot {
                stage: TriggerStage::Resting(Delay::Secs(1)),
                entity_list: list,
                ..s
            })
        },
        s.stage matches TriggerStage::Resting(d) ==> {
            &&& trigger_action(s) == TriggerAction::Wait(d)
            &&& event is Resumed ==> trigger_next(s, event) == (TriggerBot { stage: TriggerStage::Top, ..s })
        },
        s.stage == TriggerStage::Delaying ==> {
            &&& trigger_action(s) == TriggerAction::Wait(Delay::Millis(s.settings.delay_ms))
            &&& event is Resumed ==> trigger_next(s, event).stage == TriggerStage::AimedId
        },
{
}

} // verus!
