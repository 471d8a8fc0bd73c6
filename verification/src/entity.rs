//! A player as the overlay knows it, and the steps that load and refresh it
//! from the game's memory.
use vstd::prelude::*;
use vstd::string::*;
use crate::memory::{
    add_offset, as_bytes, as_i32, as_u32, as_u8, as_usize, offset_address, word_i32, word_u32,
    word_u8, word_usize, ReadKind, ReadRequest, Word,
};
use crate::names::{player_name, player_name_from_raw, weapon_display_name, WeaponNames};
use crate::offsets;

verus! {

/// The characters of `terrorist`.
pub open spec fn terrorist_label() -> Seq<char> {
    seq!['t', 'e', 'r', 'r', 'o', 'r', 'i', 's', 't']
}

/// The characters of `ct`.
pub open spec fn ct_label() -> Seq<char> {
    seq!['c', 't']
}

/// The label of a team: team 2 is the terrorists, any other is the CTs.
pub open spec fn team_label(team_number: u8) -> Seq<char> {
    if team_number == 2 {
        terrorist_label()
    } else {
        ct_label()
    }
}

/// The label of team `team_number`.
pub fn team_label_of(team_number: u8) -> (label: String)
    ensures
        label@ == team_label(team_number),
{
    if team_number == 2 {
        let s = "terrorist";
        proof {
            reveal_strlit("terrorist");
            assert(s@ =~= terrorist_label());
        }
        String::from_str(s)
    } else {
        let s = "ct";
        proof {
            reveal_strlit("ct");
            assert(s@ =~= ct_label());
        }
        String::from_str(s)
    }
}

/// The red, green, blue and alpha channels that mark a player's health: red
/// fades and green grows as health rises.
pub open spec fn health_channels(health: u32) -> Seq<u8> {
    seq![
        (255 - health) as u8,
        (55 + health * 2) as u8,
        (140 - health) as u8,
        255u8,
    ]
}

/// The colour egui makes from premultiplied channels.
pub uninterp spec fn premultiplied_color(r: u8, g: u8, b: u8, a: u8) -> egui::Color32;

/// egui's colour type, which the library hands out without looking inside.
#[verifier::external_type_specification]
#[verifier::external_body]
pub struct ExColor32(egui::Color32);

/// Calls `egui::Color32::from_rgba_premultiplied`, which keeps the four
/// channels as given; the contract names the colour after its channels and
/// says nothing more of it.
#[verifier::external_body]
fn color_from_premultiplied(r: u8, g: u8, b: u8, a: u8) -> (c: egui::Color32)
    ensures
        c == premultiplied_color(r, g, b, a),
{
    egui::Color32::from_rgba_premultiplied(r, g, b, a)
}

/// The channels that mark `health`; a health above 140 would take a channel
/// below zero.
pub fn health_color_channels(health: u32) -> (rgba: [u8; 4])
    requires
        health <= 140,
    ensures
        rgba@ == health_channels(health),
{
    let rgba = [(255 - health) as u8, (55 + health * 2) as u8, (140 - health) as u8, 255u8];
    assert(rgba@ =~= health_channels(health));
    rgba
}

/// What the overlay reads of one player; positions live beside it, with
/// the caller.
#[derive(Debug)]
pub struct Entity {
    pub health: u32,
    pub weapon: String,
    pub team_number: u8,
    pub team_str: String,
    pub money: i32,
    pub spent_money: i32,
    pub pawn: usize,
    pub controller: usize,
    pub name: String,
    pub weapon_name_ptr: usize,
    pub money_service: usize,
    pub bone_arr_addr: usize,
}

/// An entity with its text taken as characters.
pub struct EntityView {
    pub health: u32,
    pub weapon: Seq<char>,
    pub team_number: u8,
    pub team_str: Seq<char>,
    pub money: i32,
    pub spent_money: i32,
    pub pawn: usize,
    pub controller: usize,
    pub name: Seq<char>,
    pub weapon_name_ptr: usize,
    pub money_service: usize,
    pub bone_arr_addr: usize,
}

impl View for Entity {
    type V = EntityView;

    open spec fn view(&self) -> EntityView {
        EntityView {
            health: self.health,
            weapon: self.weapon@,
            team_number: self.team_number,
            team_str: self.team_str@,
            money: self.money,
            spent_money: self.spent_money,
            pawn: self.pawn,
            controller: self.controller,
            name: self.name@,
            weapon_name_ptr: self.weapon_name_ptr,
            money_service: self.money_service,
            bone_arr_addr: self.bone_arr_addr,
        }
    }
}

/// An entity that knows only its pawn and its controller.
pub open spec fn empty_entity(pawn: usize, controller: usize) -> EntityView {
    EntityView {
        health: 0,
        weapon: Seq::empty(),
        team_number: 0,
        team_str: Seq::empty(),
        money: 0,
        spent_money: 0,
        pawn,
        controller,
        name: Seq::empty(),
        weapon_name_ptr: 0,
        money_service: 0,
        bone_arr_addr: 0,
    }
}

impl Entity {
    /// An entity that knows only its pawn and its controller.
    pub fn empty(pawn: usize, controller: usize) -> (e: Self)
        ensures
            e@ == empty_entity(pawn, controller),
    {
        Entity {
            health: 0,
            weapon: String::new(),
            team_number: 0,
            team_str: String::new(),
            money: 0,
            spent_money: 0,
            pawn,
            controller,
            name: String::new(),
            weapon_name_ptr: 0,
            money_service: 0,
            bone_arr_addr: 0,
        }
    }

    /// The colour that marks this player's health.
    pub fn calculate_color(&self) -> (c: egui::Color32)
        requires
            self.health <= 140,
        ensures
            c == premultiplied_color(
                health_channels(self.health)[0],
                health_channels(self.health)[1],
                health_channels(self.health)[2],
                health_channels(self.health)[3],
            ),
    {
        let rgba = health_color_channels(self.health);
        color_from_premultiplied(rgba[0], rgba[1], rgba[2], rgba[3])
    }
}

impl Default for Entity {
    fn default() -> (e: Self)
        ensures
            e@ == empty_entity(0, 0),
    {
        Entity::empty(0, 0)
    }
}

/// Why a player could not be loaded.
#[derive(PartialEq, Eq, Structural, Clone, Copy, Debug)]
pub enum LoadError {
    /// Its health is zero, or it holds no weapon.
    PlayerDead,
    /// Its weapon has no name.
    GunUnavailable,
}

/// Where the loading of a player stands: which read it waits for, or how it ended.
#[derive(PartialEq, Eq, Structural, Clone, Copy, Debug)]
pub enum LoadStage {
    Health,
    Name,
    ClippingWeapon,
    WeaponData,
    WeaponNamePtr,
    Team,
    MoneyServices,
    SceneNode,
    BoneArray,
    /// Everything is read; the player is refreshed next and then ready.
    Loaded,
    Failed(LoadError),
    /// A read that must succeed failed, or an address did not fit in `usize`.
    Faulted,
}

/// What the caller does next for a player being loaded.
#[derive(PartialEq, Eq, Structural, Clone, Copy, Debug)]
pub enum LoadAction {
    /// Read this and hand the result back to `step`.
    Read(ReadRequest),
    /// Refresh the loaded player and take it.
    Refresh,
    /// Give up on this player.
    Fail(LoadError),
    /// Stop: the program cannot go on.
    Fault,
}

/// The loading of one player from its controller and pawn.
pub struct EntityLoader {
    pub stage: LoadStage,
    /// The pointer read last that the next read starts from.
    pub link: usize,
    pub entity: Entity,
}

/// A loader, with its entity as characters.
pub struct LoaderView {
    pub stage: LoadStage,
    pub link: usize,
    pub entity: EntityView,
}

impl View for EntityLoader {
    type V = LoaderView;

    open spec fn view(&self) -> LoaderView {
        LoaderView { stage: self.stage, link: self.link, entity: self.entity@ }
    }
}

/// A read of `kind` at `base + offset`, or a fault when that address does not fit.
pub open spec fn load_read(base: usize, offset: int, kind: ReadKind) -> LoadAction {
    match offset_address(base, offset) {
        Some(address) => LoadAction::Read(ReadRequest { address, kind }),
        None => LoadAction::Fault,
    }
}

/// What a loader in state `s` asks for.
pub open spec fn load_action(s: LoaderView) -> LoadAction {
    match s.stage {
        LoadStage::Health => load_read(s.entity.pawn, offsets::m_iHealth as int, ReadKind::U32),
        LoadStage::Name => load_read(
            s.entity.controller,
            offsets::m_iszPlayerName as int,
            ReadKind::Bytes(16),
        ),
        LoadStage::ClippingWeapon => load_read(
            s.entity.pawn,
            offsets::m_pClippingWeapon as int,
            ReadKind::Usize,
        ),
        LoadStage::WeaponData => load_read(s.link, offsets::weapon_vdata as int, ReadKind::Usize),
        LoadStage::WeaponNamePtr => load_read(s.link, offsets::m_szName as int, ReadKind::Usize),
        LoadStage::Team => load_read(s.entity.pawn, offsets::m_iTeamNum as int, ReadKind::U8),
        LoadStage::MoneyServices => load_read(
            s.entity.controller,
            offsets::m_pInGameMoneyServices as int,
            ReadKind::Usize,
        ),
        LoadStage::SceneNode => load_read(
            s.entity.pawn,
            offsets::m_pGameSceneNode as int,
            ReadKind::Usize,
        ),
        LoadStage::BoneArray => load_read(
            s.link,
            offsets::m_modelState + offsets::bone_array,
            ReadKind::Usize,
        ),
        LoadStage::Loaded => LoadAction::Refresh,
        LoadStage::Failed(e) => LoadAction::Fail(e),
        LoadStage::Faulted => LoadAction::Fault,
    }
}

/// The loader in state `s` moved to `stage`.
pub open spec fn load_goto(s: LoaderView, stage: LoadStage) -> LoaderView {
    LoaderView { stage, ..s }
}

/// The state a loader in state `s` reaches with the result `read` of what
/// it asked for. A read that failed, or gave a value of another kind, counts
/// as zero where a zero is allowed and as a fault where the value is needed.
/// A loader that asks for no read stays as it is.
pub open spec fn load_next(s: LoaderView, read: Option<Word>) -> LoaderView {
    if !(load_action(s) is Read) {
        s
    } else {
        match s.stage {
            LoadStage::Health => {
                if as_u32(read).unwrap_or(0) == 0 {
                    load_goto(s, LoadStage::Failed(LoadError::PlayerDead))
                } else {
                    load_goto(s, LoadStage::Name)
                }
            },
            LoadStage::Name => match as_bytes(read) {
                Some(raw) => LoaderView {
                    stage: LoadStage::ClippingWeapon,
                    entity: EntityView { name: player_name(raw), ..s.entity },
                    ..s
                },
                None => load_goto(s, LoadStage::Faulted),
            },
            LoadStage::ClippingWeapon => {
                let weapon = as_usize(read).unwrap_or(0);
                if weapon == 0 {
                    load_goto(s, LoadStage::Failed(LoadError::PlayerDead))
                } else {
                    LoaderView { stage: LoadStage::WeaponData, link: weapon, ..s }
                }
            },
            LoadStage::WeaponData => match as_usize(read) {
                Some(data) => LoaderView { stage: LoadStage::WeaponNamePtr, link: data, ..s },
                None => load_goto(s, LoadStage::Faulted),
            },
            LoadStage::WeaponNamePtr => {
                let ptr = as_usize(read).unwrap_or(0);
                let entity = EntityView { weapon_name_ptr: ptr, ..s.entity };
                if ptr == 0 {
                    LoaderView {
                        stage: LoadStage::Failed(LoadError::GunUnavailable),
                        entity,
                        ..s
                    }
                } else {
                    LoaderView { stage: LoadStage::Team, entity, ..s }
                }
            },
            LoadStage::Team => match as_u8(read) {
                Some(team) => LoaderView {
                    stage: LoadStage::MoneyServices,
                    entity: EntityView {
                        team_number: team,
                        team_str: team_label(team),
                        ..s.entity
                    },
                    ..s
                },
                None => load_goto(s, LoadStage::Faulted),
            },
            LoadStage::MoneyServices => match as_usize(read) {
                Some(money) => LoaderView {
                    stage: LoadStage::SceneNode,
                    entity: EntityView { money_service: money, ..s.entity },
                    ..s
                },
                None => load_goto(s, LoadStage::Faulted),
            },
            LoadStage::SceneNode => match as_usize(read) {
                Some(node) => LoaderView { stage: LoadStage::BoneArray, link: node, ..s },
                None => load_goto(s, LoadStage::Faulted),
            },
            LoadStage::BoneArray => match as_usize(read) {
                Some(bones) => LoaderView {
                    stage: LoadStage::Loaded,
                    entity: EntityView { bone_arr_addr: bones, ..s.entity },
                    ..s
                },
                None => load_goto(s, LoadStage::Faulted),
            },
            _ => s,
        }
    }
}

/// A read of `kind` at `base + offset`, or a fault when that address does not fit.
fn read_request(base: usize, offset: usize, kind: ReadKind) -> (a: LoadAction)
    ensures
        a == load_read(base, offset as int, kind),
{
    match add_offset(base, offset) {
        Some(address) => LoadAction::Read(ReadRequest { address, kind }),
        None => LoadAction::Fault,
    }
}

impl EntityLoader {
    /// Starts loading the player with this controller and pawn; the first
    /// thing asked for is its health.
    pub fn new(controller: usize, pawn: usize) -> (res: (Self, LoadAction))
        ensures
            res.0@ == (LoaderView {
                stage: LoadStage::Health,
                link: 0,
                entity: empty_entity(pawn, controller),
            }),
            res.1 == load_action(res.0@),
    {
        let loader = EntityLoader {
            stage: LoadStage::Health,
            link: 0,
            entity: Entity::empty(pawn, controller),
        };
        let action = loader.action();
        (loader, action)
    }

    /// What this loader asks for.
    pub fn action(&self) -> (a: LoadAction)
        ensures
            a == load_action(self@),
    {
        match self.stage {
            LoadStage::Health => read_request(self.entity.pawn, offsets::m_iHealth, ReadKind::U32),
            LoadStage::Name => read_request(
                self.entity.controller,
                offsets::m_iszPlayerName,
                ReadKind::Bytes(16),
            ),
            LoadStage::ClippingWeapon => read_request(
                self.entity.pawn,
                offsets::m_pClippingWeapon,
                ReadKind::Usize,
            ),
            LoadStage::WeaponData => read_request(
                self.link,
                offsets::weapon_vdata,
                ReadKind::Usize,
            ),
            LoadStage::WeaponNamePtr => read_request(self.link, offsets::m_szName, ReadKind::Usize),
            LoadStage::Team => read_request(self.entity.pawn, offsets::m_iTeamNum, ReadKind::U8),
            LoadStage::MoneyServices => read_request(
                self.entity.controller,
                offsets::m_pInGameMoneyServices,
                ReadKind::Usize,
            ),
            LoadStage::SceneNode => read_request(
                self.entity.pawn,
                offsets::m_pGameSceneNode,
                ReadKind::Usize,
            ),
            LoadStage::BoneArray => read_request(
                self.link,
                offsets::m_modelState + offsets::bone_array,
                ReadKind::Usize,
            ),
            LoadStage::Loaded => LoadAction::Refresh,
            LoadStage::Failed(e) => LoadAction::Fail(e),
            LoadStage::Faulted => LoadAction::Fault,
        }
    }

    /// Takes the result of the read asked for and says what comes next.
    pub fn step(&mut self, read: Option<Word>) -> (a: LoadAction)
        ensures
            final(self)@ == load_next(old(self)@, read),
            a == load_action(final(self)@),
    {
        let asked = self.action();
        if let LoadAction::Read(_) = asked {
            match self.stage {
                LoadStage::Health => {
                    if word_u32(&read).unwrap_or(0) == 0 {
                        self.stage = LoadStage::Failed(LoadError::PlayerDead);
                    } else {
                        self.stage = LoadStage::Name;
                    }
                },
                LoadStage::Name => match read {
                    Some(Word::Bytes(raw)) => {
                        self.entity.name = player_name_from_raw(raw.as_slice());
                        self.stage = LoadStage::ClippingWeapon;
                    },
                    _ => {
                        self.stage = LoadStage::Faulted;
                    },
                },
                LoadStage::ClippingWeapon => {
                    let weapon = word_usize(&read).unwrap_or(0);
                    if weapon == 0 {
                        self.stage = LoadStage::Failed(LoadError::PlayerDead);
                    } else {
                        self.link = weapon;
                        self.stage = LoadStage::WeaponData;
                    }
                },
                LoadStage::WeaponData => match word_usize(&read) {
                    Some(data) => {
                        self.link = data;
                        self.stage = LoadStage::WeaponNamePtr;
                    },
                    None => {
                        self.stage = LoadStage::Faulted;
                    },
                },
                LoadStage::WeaponNamePtr => {
                    let ptr = word_usize(&read).unwrap_or(0);
                    self.entity.weapon_name_ptr = ptr;
                    if ptr == 0 {
                        self.stage = LoadStage::Failed(LoadError::GunUnavailable);
                    } else {
                        self.stage = LoadStage::Team;
                    }
                },
                LoadStage::Team => match word_u8(&read) {
                    Some(team) => {
                        self.entity.team_number = team;
                        self.entity.team_str = team_label_of(team);
                        self.stage = LoadStage::MoneyServices;
                    },
                    None => {
                        self.stage = LoadStage::Faulted;
                    },
                },
                LoadStage::MoneyServices => match word_usize(&read) {
                    Some(money) => {
                        self.entity.money_service = money;
                        self.stage = LoadStage::SceneNode;
                    },
                    None => {
                        self.stage = LoadStage::Faulted;
                    },
                },
                LoadStage::SceneNode => match word_usize(&read) {
                    Some(node) => {
                        self.link = node;
                        self.stage = LoadStage::BoneArray;
                    },
                    None => {
                        self.stage = LoadStage::Faulted;
                    },
                },
                LoadStage::BoneArray => match word_usize(&read) {
                    Some(bones) => {
                        self.entity.bone_arr_addr = bones;
                        self.stage = LoadStage::Loaded;
                    },
                    None => {
                        self.stage = LoadStage::Faulted;
                    },
                },
                _ => {},
            }
        }
        self.action()
    }
}

/// Where the refresh of a player stands.
#[derive(PartialEq, Eq, Structural, Clone, Copy, Debug)]
pub enum RefreshStage {
    Health,
    WeaponName,
    Origin,
    Spent,
    Money,
    Bones,
    Done,
    /// A read that must succeed failed, or an address did not fit in `usize`.
    Faulted,
}

/// What the caller does next for a player being refreshed.
#[derive(PartialEq, Eq, Structural, Clone, Copy, Debug)]
pub enum RefreshAction {
    /// Read this and hand the result back to `step`.
    Read(ReadRequest),
    /// Read the pawn's position, three floats at this address, then call `step`.
    Origin { address: usize },
    /// Read and place the bones of the array at `base`, then call `step`.
    Bones { base: usize },
    /// The player is up to date.
    Done,
    /// Stop: the program cannot go on.
    Fault,
}

/// The refresh of one player from the game's memory.
pub struct EntityRefresh {
    pub stage: RefreshStage,
    pub entity: Entity,
}

/// A refresh, with its entity as characters.
pub struct RefreshView {
    pub stage: RefreshStage,
    pub entity: EntityView,
}

impl View for EntityRefresh {
    type V = RefreshView;

    open spec fn view(&self) -> RefreshView {
        RefreshView { stage: self.stage, entity: self.entity@ }
    }
}

/// A read of `kind` at `base + offset`, or a fault when that address does not fit.
pub open spec fn refresh_read(base: usize, offset: int, kind: ReadKind) -> RefreshAction {
    match offset_address(base, offset) {
        Some(address) => RefreshAction::Read(ReadRequest { address, kind }),
        None => RefreshAction::Fault,
    }
}

/// What a refresh in state `s` asks for.
pub open spec fn refresh_action(s: RefreshView) -> RefreshAction {
    match s.stage {
        RefreshStage::Health => refresh_read(s.entity.pawn, offsets::m_iHealth as int, ReadKind::U32),
        RefreshStage::WeaponName => RefreshAction::Read(
            ReadRequest { address: s.entity.weapon_name_ptr, kind: ReadKind::Bytes(32) },
        ),
        RefreshStage::Origin => match offset_address(s.entity.pawn, offsets::m_vOldOrigin as int) {
            Some(address) => RefreshAction::Origin { address },
            None => RefreshAction::Fault,
        },
        RefreshStage::Spent => refresh_read(
            s.entity.money_service,
            offsets::m_iTotalCashSpent as int,
            ReadKind::I32,
        ),
        RefreshStage::Money => refresh_read(
            s.entity.money_service,
            offsets::m_iAccount as int,
            ReadKind::I32,
        ),
        RefreshStage::Bones => RefreshAction::Bones { base: s.entity.bone_arr_addr },
        RefreshStage::Done => RefreshAction::Done,
        RefreshStage::Faulted => RefreshAction::Fault,
    }
}

/// What follows the money: the bones when the player has a bone array.
pub open spec fn after_money(e: EntityView) -> RefreshStage {
    if e.bone_arr_addr != 0 {
        RefreshStage::Bones
    } else {
        RefreshStage::Done
    }
}

/// What follows the position: the money when the player has money services.
pub open spec fn after_origin(e: EntityView) -> RefreshStage {
    if e.money_service != 0 {
        RefreshStage::Spent
    } else {
        after_money(e)
    }
}

/// The state a refresh in state `s` reaches with the result `read` of what it
/// asked for (ignored after the position and the bones, which the caller
/// handles). A failed health read counts as zero health, which ends the
/// refresh; any other read that fails is a fault. A refresh that asks for
/// nothing stays as it is.
pub open spec fn refresh_next(s: RefreshView, read: Option<Word>) -> RefreshView {
    let asked = refresh_action(s);
    if asked is Done || asked is Fault {
        s
    } else {
        match s.stage {
            RefreshStage::Health => {
                let health = as_u32(read).unwrap_or(0);
                let entity = EntityView { health, ..s.entity };
                let stage = if health == 0 {
                    RefreshStage::Done
                } else if s.entity.weapon_name_ptr != 0 {
                    RefreshStage::WeaponName
                } else {
                    RefreshStage::Origin
                };
                RefreshView { stage, entity }
            },
            RefreshStage::WeaponName => match as_bytes(read) {
                Some(raw) => RefreshView {
                    stage: RefreshStage::Origin,
                    entity: EntityView { weapon: weapon_display_name(raw), ..s.entity },
                },
                None => RefreshView { stage: RefreshStage::Faulted, ..s },
            },
            RefreshStage::Origin => RefreshView { stage: after_origin(s.entity), ..s },
            RefreshStage::Spent => match as_i32(read) {
                Some(spent) => RefreshView {
                    stage: RefreshStage::Money,
                    entity: EntityView { spent_money: spent, ..s.entity },
                },
                None => RefreshView { stage: RefreshStage::Faulted, ..s },
            },
            RefreshStage::Money => match as_i32(read) {
                Some(money) => RefreshView {
                    stage: after_money(s.entity),
                    entity: EntityView { money, ..s.entity },
                },
                None => RefreshView { stage: RefreshStage::Faulted, ..s },
            },
            RefreshStage::Bones => RefreshView { stage: RefreshStage::Done, ..s },
            _ => s,
        }
    }
}

/// The raw weapon name a refresh in state `s` looks up with the result `read`,
/// if this step looks one up.
pub open spec fn refresh_looks_up(s: RefreshView, read: Option<Word>) -> Option<Seq<u8>> {
    if s.stage == RefreshStage::WeaponName {
        as_bytes(read)
    } else {
        None
    }
}

/// A read of `kind` at `base + offset`, or a fault when that address does not fit.
fn refresh_request(base: usize, offset: usize, kind: ReadKind) -> (a: RefreshAction)
    ensures
        a == refresh_read(base, offset as int, kind),
{
    match add_offset(base, offset) {
        Some(address) => RefreshAction::Read(ReadRequest { address, kind }),
        None => RefreshAction::Fault,
    }
}

impl EntityRefresh {
    /// Starts refreshing `entity`; the first thing asked for is its health.
    pub fn new(entity: Entity) -> (res: (Self, RefreshAction))
        ensures
            res.0@ == (RefreshView { stage: RefreshStage::Health, entity: entity@ }),
            res.1 == refresh_action(res.0@),
    {
        let refresh = EntityRefresh { stage: RefreshStage::Health, entity };
        let action = refresh.action();
        (refresh, action)
    }

    /// What this refresh asks for.
    pub fn action(&self) -> (a: RefreshAction)
        ensures
            a == refresh_action(self@),
    {
        match self.stage {
            RefreshStage::Health => refresh_request(
                self.entity.pawn,
                offsets::m_iHealth,
                ReadKind::U32,
            ),
            RefreshStage::WeaponName => RefreshAction::Read(
                ReadRequest { address: self.entity.weapon_name_ptr, kind: ReadKind::Bytes(32) },
            ),
            RefreshStage::Origin => match add_offset(self.entity.pawn, offsets::m_vOldOrigin) {
                Some(address) => RefreshAction::Origin { address },
                None => RefreshAction::Fault,
            },
            RefreshStage::Spent => refresh_request(
                self.entity.money_service,
                offsets::m_iTotalCashSpent,
                ReadKind::I32,
            ),
            RefreshStage::Money => refresh_request(
                self.entity.money_service,
                offsets::m_iAccount,
                ReadKind::I32,
            ),
            RefreshStage::Bones => RefreshAction::Bones { base: self.entity.bone_arr_addr },
            RefreshStage::Done => RefreshAction::Done,
            RefreshStage::Faulted => RefreshAction::Fault,
        }
    }

    fn after_money(&self) -> (stage: RefreshStage)
        ensures
            stage == after_money(self.entity@),
    {
        if self.entity.bone_arr_addr != 0 {
            RefreshStage::Bones
        } else {
            RefreshStage::Done
        }
    }

    /// Takes the result of what was asked for and says what comes next. The
    /// weapon's display name is taken from `names`, which learns it if it
    /// did not know it.
    pub fn step(&mut self, names: &mut WeaponNames, read: Option<Word>) -> (a: RefreshAction)
        ensures
            final(self)@ == refresh_next(old(self)@, read),
            a == refresh_action(final(self)@),
            match refresh_looks_up(old(self)@, read) {
                Some(raw) => final(names).names() == old(names).names().insert(
                    raw,
                    weapon_display_name(raw),
                ),
                None => final(names).names() == old(names).names(),
            },
            old(names).names_coherent(),
            refresh_looks_up(old(self)@, read) is Some ==> final(names).names_coherent(),
    {
        proof {
            use_type_invariant(&*names);
            names.lemma_coherent();
        }
        let asked = self.action();
        match asked {
            RefreshAction::Done | RefreshAction::Fault => {
                return asked;
            },
            _ => {},
        }
        match self.stage {
            RefreshStage::Health => {
                let health = word_u32(&read).unwrap_or(0);
                self.entity.health = health;
                if health == 0 {
                    self.stage = RefreshStage::Done;
                } else if self.entity.weapon_name_ptr != 0 {
                    self.stage = RefreshStage::WeaponName;
                } else {
                    self.stage = RefreshStage::Origin;
                }
            },
            RefreshStage::WeaponName => match read {
                Some(Word::Bytes(raw)) => {
                    self.entity.weapon = names.resolve(raw.as_slice());
                    self.stage = RefreshStage::Origin;
                },
                _ => {
                    self.stage = RefreshStage::Faulted;
                },
            },
            RefreshStage::Origin => {
                if self.entity.money_service != 0 {
                    self.stage = RefreshStage::Spent;
                } else {
                    self.stage = self.after_money();
                }
            },
            RefreshStage::Spent => match word_i32(&read) {
                Some(spent) => {
                    self.entity.spent_money = spent;
                    self.stage = RefreshStage::Money;
                },
                None => {
                    self.stage = RefreshStage::Faulted;
                },
            },
            RefreshStage::Money => match word_i32(&read) {
                Some(money) => {
                    self.entity.money = money;
                    self.stage = self.after_money();
                },
                None => {
                    self.stage = RefreshStage::Faulted;
                },
            },
            RefreshStage::Bones => {
                self.stage = RefreshStage::Done;
            },
            _ => {},
        }
        self.action()
    }
}

/// Up to full health the colour channels do not wrap: as health rises the
/// red channel falls and the green one grows.
pub proof fn lemma_health_color_monotone(low: u32, high: u32)
    requires
        low < high <= 100,
    ensures
        health_channels(high)[0] == 255 - high,
        health_channels(high)[1] == 55 + 2 * high,
        health_channels(high)[2] == 140 - high,
        health_channels(low)[0] > health_channels(high)[0],
        health_channels(low)[1] < health_channels(high)[1],
        health_channels(low)[2] > health_channels(high)[2],
{
}

/// Once the gun's name pointer is read, a player is loaded only with a gun
/// that has a name; it fails as unavailable exactly when that pointer is zero.
pub open spec fn load_inv(s: LoaderView) -> bool {
    &&& (s.stage == LoadStage::Team || s.stage == LoadStage::MoneyServices || s.stage
        == LoadStage::SceneNode || s.stage == LoadStage::BoneArray || s.stage
        == LoadStage::Loaded) ==> s.entity.weapon_name_ptr != 0
    &&& s.stage == LoadStage::Failed(LoadError::GunUnavailable) ==> s.entity.weapon_name_ptr == 0
}

/// Loading keeps the player's controller and pawn, starts in a state that
/// keeps the invariant, and every step keeps it.
pub proof fn lemma_load_inv(s: LoaderView, read: Option<Word>, controller: usize, pawn: usize)
    ensures
        load_inv(
            LoaderView {
                stage: LoadStage::Health,
                link: 0,
                entity: empty_entity(pawn, controller),
            },
        ),
        load_inv(s) ==> load_inv(load_next(s, read)),
        load_next(s, read).entity.pawn == s.entity.pawn,
        load_next(s, read).entity.controller == s.entity.controller,
{
}

/// Refreshing a player changes what it reads (health, weapon, money) and
/// never the pointers it reads them from.
pub proof fn lemma_refresh_keeps_pointers(s: RefreshView, read: Option<Word>)
    ensures
        refresh_next(s, read).entity.pawn == s.entity.pawn,
        refresh_next(s, read).entity.controller == s.entity.controller,
        refresh_next(s, read).entity.weapon_name_ptr == s.entity.weapon_name_ptr,
        refresh_next(s, read).entity.money_service == s.entity.money_service,
        refresh_next(s, read).entity.bone_arr_addr == s.entity.bone_arr_addr,
        refresh_next(s, read).entity.name == s.entity.name,
        refresh_next(s, read).entity.team_number == s.entity.team_number,
{
}

/// A player found dead is left as it was but for its health: nothing else is
/// read.
pub proof fn lemma_refresh_dead_player(s: RefreshView, read: Option<Word>)
    requires
        s.stage == RefreshStage::Health,
        refresh_action(s) is Read,
        as_u32(read).unwrap_or(0) == 0,
    ensures
        refresh_next(s, read) == (RefreshView {
            stage: RefreshStage::Done,
            entity: EntityView { health: 0, ..s.entity },
        }),
        refresh_action(refresh_next(s, read)) == RefreshAction::Done,
{
}

/// What the game's memory gives for each read, as a function of the read.
pub type Memory = spec_fn(ReadRequest) -> Option<Word>;

/// What a refresh in state `s` is handed back when memory is `mem`: the
/// result of its read, or nothing when it asks for no read.
pub open spec fn refresh_event(s: RefreshView, mem: Memory) -> Option<Word> {
    match refresh_action(s) {
        RefreshAction::Read(r) => mem(r),
        _ => None,
    }
}

/// The refresh from state `s` after `fuel` steps against memory `mem`.
pub open spec fn refresh_run(s: RefreshView, mem: Memory, fuel: nat) -> RefreshView
    decreases fuel,
{
    if fuel == 0 {
        s
    } else {
        refresh_run(refresh_next(s, refresh_event(s, mem)), mem, (fuel - 1) as nat)
    }
}

/// The refresh of `e` against memory `mem`, run to its end (it takes at most
/// six steps).
pub open spec fn refreshed(e: EntityView, mem: Memory) -> RefreshView {
    refresh_run(RefreshView { stage: RefreshStage::Health, entity: e }, mem, 6)
}

/// A second refresh against unchanged memory changes nothing: refreshing is
/// idempotent.
pub proof fn lemma_refresh_idempotent(e: EntityView, mem: Memory)
    requires
        refreshed(e, mem).stage == RefreshStage::Done,
    ensures
        refreshed(refreshed(e, mem).entity, mem) == refreshed(e, mem),
{
    reveal_with_fuel(refresh_run, 7);
}

/// What a loader in state `s` is handed back when memory is `mem`.
pub open spec fn load_event(s: LoaderView, mem: Memory) -> Option<Word> {
    match load_action(s) {
        LoadAction::Read(r) => mem(r),
        _ => None,
    }
}

/// The loader from state `s` after `fuel` steps against memory `mem`.
pub open spec fn load_run(s: LoaderView, mem: Memory, fuel: nat) -> LoaderView
    decreases fuel,
{
    if fuel == 0 {
        s
    } else {
        load_run(load_next(s, load_event(s, mem)), mem, (fuel - 1) as nat)
    }
}

/// The loading of the player with this controller and pawn against memory
/// `mem`, run to its end (it takes at most nine steps).
pub open spec fn loaded(controller: usize, pawn: usize, mem: Memory) -> LoaderView {
    load_run(
        LoaderView { stage: LoadStage::Health, link: 0, entity: empty_entity(pawn, controller) },
        mem,
        9,
    )
}

/// The `usize` that memory `mem` holds at `base + offset`.
pub open spec fn mem_usize(mem: Memory, base: usize, offset: int) -> Option<usize> {
    as_usize(mem(ReadRequest { address: (base + offset) as usize, kind: ReadKind::Usize }))
}

/// A player that loads against memory `mem` is the empty player with its
/// name, weapon name pointer, team, money services and bone array read from
/// the places the game keeps them, and asks next to be refreshed.
pub proof fn lemma_load_reads(controller: usize, pawn: usize, mem: Memory)
    requires
        loaded(controller, pawn, mem).stage == LoadStage::Loaded,
    ensures
        ({
            let clip = mem_usize(mem, pawn, offsets::m_pClippingWeapon as int)->0;
            let data = mem_usize(mem, clip, offsets::weapon_vdata as int)->0;
            let node = mem_usize(mem, pawn, offsets::m_pGameSceneNode as int)->0;
            let team = as_u8(
                mem(
                    ReadRequest {
                        address: (pawn + offsets::m_iTeamNum) as usize,
                        kind: ReadKind::U8,
                    },
                ),
            )->0;
            let raw_name = as_bytes(
                mem(
                    ReadRequest {
                        address: (controller + offsets::m_iszPlayerName) as usize,
                        kind: ReadKind::Bytes(16),
                    },
                ),
            )->0;
            loaded(controller, pawn, mem).entity == EntityView {
                name: player_name(raw_name),
                weapon_name_ptr: mem_usize(mem, data, offsets::m_szName as int)->0,
                team_number: team,
                team_str: team_label(team),
                money_service: mem_usize(
                    mem,
                    controller,
                    offsets::m_pInGameMoneyServices as int,
                )->0,
                bone_arr_addr: mem_usize(
                    mem,
                    node,
                    offsets::m_modelState + offsets::bone_array,
                )->0,
                ..empty_entity(pawn, controller)
            }
        }),
        load_action(loaded(controller, pawn, mem)) == LoadAction::Refresh,
{
    reveal_with_fuel(load_run, 10);
}

/// What each step of loading a player reads: its health (`u32`) at the pawn
/// + 0x32C, its name (16 bytes) at the controller + 0x640, its weapon at the
/// pawn + 0x12B0, the weapon's data at the weapon + 0x360, the weapon's name
/// pointer at the data + 0xC18, its team (one byte) at the pawn + 0x3BF, its
/// money services at the controller + 0x700, its scene node at the pawn +
/// 0x310, and its bone array at the scene node + 0x160 + 0x80; each a fault
/// when its address does not fit in `usize`. A loaded player is refreshed
/// next; a failed load reports why.
pub proof fn lemma_loader_asks(s: LoaderView)
    ensures
        s.stage == LoadStage::Health ==> load_action(s) == (if s.entity.pawn + 0x32C <= usize::MAX {
            LoadAction::Read(ReadRequest { address: (s.entity.pawn + 0x32C) as usize, kind: ReadKind::U32 })
        } else {
            LoadAction::Fault
        }),
        s.stage == LoadStage::Name ==> load_action(s) == (if s.entity.controller + 0x640 <= usize::MAX {
            LoadAction::Read(ReadRequest { address: (s.entity.controller + 0x640) as usize, kind: ReadKind::Bytes(16) })
        } else {
            LoadAction::Fault
        }),
        s.stage == LoadStage::ClippingWeapon ==> load_action(s) == (if s.entity.pawn + 0x12B0 <= usize::MAX {
            LoadAction::Read(ReadRequest { address: (s.entity.pawn + 0x12B0) as usize, kind: ReadKind::Usize })
        } else {
            LoadAction::Fault
        }),
        s.stage == LoadStage::WeaponData ==> load_action(s) == (if s.link + 0x360 <= usize::MAX {
            LoadAction::Read(ReadRequest { address: (s.link + 0x360) as usize, kind: ReadKind::Usize })
        } else {
            LoadAction::Fault
        }),
        s.stage == LoadStage::WeaponNamePtr ==> load_action(s) == (if s.link + 0xC18 <= usize::MAX {
            LoadAction::Read(ReadRequest { address: (s.link + 0xC18) as usize, kind: ReadKind::Usize })
        } else {
            LoadAction::Fault
        }),
        s.stage == LoadStage::Team ==> load_action(s) == (if s.entity.pawn + 0x3BF <= usize::MAX {
            LoadAction::Read(ReadRequest { address: (s.entity.pawn + 0x3BF) as usize, kind: ReadKind::U8 })
        } else {
            LoadAction::Fault
        }),
        s.stage == LoadStage::MoneyServices ==> load_action(s) == (if s.entity.controller + 0x700 <= usize::MAX {
            LoadAction::Read(ReadRequest { address: (s.entity.controller + 0x700) as usize, kind: ReadKind::Usize })
        } else {
            LoadAction::Fault
        }),
        s.stage == LoadStage::SceneNode ==> load_action(s) == (if s.entity.pawn + 0x310 <= usize::MAX {
            LoadAction::Read(ReadRequest { address: (s.entity.pawn + 0x310) as usize, kind: ReadKind::Usize })
        } else {
            LoadAction::Fault
        }),
        s.stage == LoadStage::BoneArray ==> load_action(s) == (if s.link + 0x1E0 <= usize::MAX {
            LoadAction::Read(ReadRequest { address: (s.link + 0x1E0) as usize, kind: ReadKind::Usize })
        } else {
            LoadAction::Fault
        }),
        s.stage == LoadStage::Loaded ==> load_action(s) == LoadAction::Refresh,
        s.stage matches LoadStage::Failed(e) ==> load_action(s) == LoadAction::Fail(e),
        s.stage == LoadStage::Faulted ==> load_action(s) == LoadAction::Fault,
{
}

/// How loading moves on with each read: a health that is missing or zero
/// drops the player as dead and any other health goes on to the name; the
/// name (bytes) is decoded; a null or missing weapon drops the player as
/// dead; a null weapon name pointer drops it as having no gun; the team,
/// money services, scene node and bone array are taken as read. A read that
/// must give a value and gives none is a fault.
pub proof fn lemma_loader_moves(s: LoaderView, read: Option<Word>)
    requires
        load_action(s) is Read,
    ensures
        ({
            let n = load_next(s, read);
            &&& s.stage == LoadStage::Health ==> n == match read {
                Some(Word::U32(h)) => if h != 0 {
                    (LoaderView { stage: LoadStage::Name, ..s })
                } else {
                    (LoaderView { stage: LoadStage::Failed(LoadError::PlayerDead), ..s })
                },
                _ => (LoaderView { stage: LoadStage::Failed(LoadError::PlayerDead), ..s }),
            }
            &&& s.stage == LoadStage::Name ==> n == match read {
                Some(Word::Bytes(v)) => (LoaderView {
                    stage: LoadStage::ClippingWeapon,
                    entity: EntityView { name: player_name(v@), ..s.entity },
                    ..s
                }),
                _ => (LoaderView { stage: LoadStage::Faulted, ..s }),
            }
            &&& s.stage == LoadStage::ClippingWeapon ==> n == match read {
                Some(Word::Usize(w)) => if w != 0 {
                    (LoaderView { stage: LoadStage::WeaponData, link: w, ..s })
                } else {
                    (LoaderView { stage: LoadStage::Failed(LoadError::PlayerDead), ..s })
                },
                _ => (LoaderView { stage: LoadStage::Failed(LoadError::PlayerDead), ..s }),
            }
            &&& s.stage == LoadStage::WeaponData ==> n == match read {
                Some(Word::Usize(d)) => (LoaderView { stage: LoadStage::WeaponNamePtr, link: d, ..s }),
                _ => (LoaderView { stage: LoadStage::Faulted, ..s }),
            }
            &&& s.stage == LoadStage::WeaponNamePtr ==> {
                let ptr: usize = match read {
                    Some(Word::Usize(p)) => p,
                    _ => 0,
                };
                n == (LoaderView {
                    stage: if ptr != 0 {
                        LoadStage::Team
                    } else {
                        LoadStage::Failed(LoadError::GunUnavailable)
                    },
                    entity: EntityView { weapon_name_ptr: ptr, ..s.entity },
                    ..s
                })
            }
            &&& s.stage == LoadStage::Team ==> n == match read {
                Some(Word::U8(t)) => (LoaderView {
                    stage: LoadStage::MoneyServices,
                    entity: EntityView { team_number: t, team_str: team_label(t), ..s.entity },
                    ..s
                }),
                _ => (LoaderView { stage: LoadStage::Faulted, ..s }),
            }
            &&& s.stage == LoadStage::MoneyServices ==> n == match read {
                Some(Word::Usize(m)) => (LoaderView {
                    stage: LoadStage::SceneNode,
                    entity: EntityView { money_service: m, ..s.entity },
                    ..s
                }),
                _ => (LoaderView { stage: LoadStage::Faulted, ..s }),
            }
            &&& s.stage == LoadStage::SceneNode ==> n == match read {
                Some(Word::Usize(node)) => (LoaderView { stage: LoadStage::BoneArray, link: node, ..s }),
                _ => (LoaderView { stage: LoadStage::Faulted, ..s }),
            }
            &&& s.stage == LoadStage::BoneArray ==> n == match read {
                Some(Word::Usize(b)) => (LoaderView {
                    stage: LoadStage::Loaded,
                    entity: EntityView { bone_arr_addr: b, ..s.entity },
                    ..s
                }),
                _ => (LoaderView { stage: LoadStage::Faulted, ..s }),
            }
        }),
{
}

/// What each step of a refresh asks for: the health (`u32`) at the pawn +
/// 0x32C; 32 bytes of weapon name at the weapon name pointer; the position
/// at the pawn + 0x1224; the money spent (`i32`) at the money services +
/// 0x48 and the money held at the money services + 0x40; the bones of the
/// bone array; each a fault when its address does not fit in `usize`.
pub proof fn lemma_refresh_asks(s: RefreshView)
    ensures
        s.stage == RefreshStage::Health ==> refresh_action(s) == (if s.entity.pawn + 0x32C <= usize::MAX {
            RefreshAction::Read(ReadRequest { address: (s.entity.pawn + 0x32C) as usize, kind: ReadKind::U32 })
        } else {
            RefreshAction::Fault
        }),
        s.stage == RefreshStage::Spent ==> refresh_action(s) == (if s.entity.money_service + 0x48 <= usize::MAX {
            RefreshAction::Read(ReadRequest { address: (s.entity.money_service + 0x48) as usize, kind: ReadKind::I32 })
        } else {
            RefreshAction::Fault
        }),
        s.stage == RefreshStage::Money ==> refresh_action(s) == (if s.entity.money_service + 0x40 <= usize::MAX {
            RefreshAction::Read(ReadRequest { address: (s.entity.money_service + 0x40) as usize, kind: ReadKind::I32 })
        } else {
            RefreshAction::Fault
        }),
        s.stage == RefreshStage::WeaponName ==> refresh_action(s) == RefreshAction::Read(
            ReadRequest { address: s.entity.weapon_name_ptr, kind: ReadKind::Bytes(32) },
        ),
        s.stage == RefreshStage::Origin ==> refresh_action(s) == (if s.entity.pawn + 0x1224
            <= usize::MAX {
            RefreshAction::Origin { address: (s.entity.pawn + 0x1224) as usize }
        } else {
            RefreshAction::Fault
        }),
        s.stage == RefreshStage::Bones ==> refresh_action(s) == (RefreshAction::Bones {
            base: s.entity.bone_arr_addr,
        }),
        s.stage == RefreshStage::Done ==> refresh_action(s) == RefreshAction::Done,
{
}

/// How a refresh moves on: a zero or missing health ends it (the player is
/// dead); a living player with a weapon name pointer has its weapon's
/// display name read, then its position; with money services both the money
/// spent and the money held are read, whatever they are; then the bones when
/// it has a bone array. A read that must give a value and gives none is a
/// fault.
pub proof fn lemma_refresh_moves(s: RefreshView, read: Option<Word>)
    requires
        !(refresh_action(s) is Done || refresh_action(s) is Fault),
    ensures
        ({
            let n = refresh_next(s, read);
            let rest = if s.entity.bone_arr_addr != 0 {
                RefreshStage::Bones
            } else {
                RefreshStage::Done
            };
            &&& s.stage == RefreshStage::Health ==> {
                let h: u32 = match read {
                    Some(Word::U32(h)) => h,
                    _ => 0,
                };
                n == (RefreshView {
                    stage: if h == 0 {
                        RefreshStage::Done
                    } else if s.entity.weapon_name_ptr != 0 {
                        RefreshStage::WeaponName
                    } else {
                        RefreshStage::Origin
                    },
                    entity: EntityView { health: h, ..s.entity },
                })
            }
            &&& s.stage == RefreshStage::WeaponName ==> n == match read {
                Some(Word::Bytes(v)) => (RefreshView {
                    stage: RefreshStage::Origin,
                    entity: EntityView { weapon: weapon_display_name(v@), ..s.entity },
                }),
                _ => (RefreshView { stage: RefreshStage::Faulted, ..s }),
            }
            &&& s.stage == RefreshStage::Origin ==> n == (RefreshView {
                stage: if s.entity.money_service != 0 {
                    RefreshStage::Spent
                } else {
                    rest
                },
                ..s
            })
            &&& s.stage == RefreshStage::Spent ==> n == match read {
                Some(Word::I32(x)) => (RefreshView {
                    stage: RefreshStage::Money,
                    entity: EntityView { spent_money: x, ..s.entity },
                }),
                _ => (RefreshView { stage: RefreshStage::Faulted, ..s }),
            }
            &&& s.stage == RefreshStage::Money ==> n == match read {
                Some(Word::I32(m)) => (RefreshView { stage: rest, entity: EntityView { money: m, ..s.entity } }),
                _ => (RefreshView { stage: RefreshStage::Faulted, ..s }),
            }
            &&& s.stage == RefreshStage::Bones ==> n == (RefreshView { stage: RefreshStage::Done, ..s })
        }),
{
}

/// A refresh run to its end against memory `mem`, of a player whose health
/// reads as a non-zero `h` and that has money services, holds health `h`,
/// the money spent that memory holds at the money services + 0x48 and the
/// money held that it holds at the money services + 0x40.
pub proof fn lemma_refresh_reads_money(e: EntityView, mem: Memory, h: u32)
    requires
        refreshed(e, mem).stage == RefreshStage::Done,
        mem(ReadRequest { address: (e.pawn + 0x32C) as usize, kind: ReadKind::U32 }) == Some(
            Word::U32(h),
        ),
        h != 0,
        e.money_service != 0,
    ensures
        ({
            let r = refreshed(e, mem).entity;
            let spent = mem(ReadRequest { address: (e.money_service + 0x48) as usize, kind: ReadKind::I32 });
            let money = mem(ReadRequest { address: (e.money_service + 0x40) as usize, kind: ReadKind::I32 });
            &&& r.health == h
            &&& spent matches Some(Word::I32(x)) && r.spent_money == x
            &&& money matches Some(Word::I32(m)) && r.money == m
        }),
{
    reveal_with_fuel(refresh_run, 7);
}

/// Team 2 is labelled `terrorist`; every other team `ct`.
pub proof fn lemma_team_label(team_number: u8)
    ensures
        team_number == 2 ==> team_label(team_number) == seq!['t', 'e', 'r', 'r', 'o', 'r', 'i', 's', 't'],
        team_number != 2 ==> team_label(team_number) == seq!['c', 't'],
{
}

} // verus!
