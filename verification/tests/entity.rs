use cs2_overlay::entity::{
    health_color_channels, team_label_of, Entity, EntityLoader, EntityRefresh, LoadAction,
    LoadError, RefreshAction,
};
use cs2_overlay::memory::{ReadKind, ReadRequest, Word};
use cs2_overlay::names::WeaponNames;
use cs2_overlay::offsets;

fn read(address: usize, kind: ReadKind) -> LoadAction {
    LoadAction::Read(ReadRequest { address, kind })
}

fn padded(name: &str, len: usize) -> Vec<u8> {
    let mut raw = name.as_bytes().to_vec();
    raw.resize(len, 0);
    raw
}

const CONTROLLER: usize = 0x1000_0000;
const PAWN: usize = 0x2000_0000;

#[test]
fn loader_reads_a_player_in_order() {
    let (mut l, a) = EntityLoader::new(CONTROLLER, PAWN);
    assert_eq!(a, read(PAWN + offsets::m_iHealth, ReadKind::U32));
    let a = l.step(Some(Word::U32(100)));
    assert_eq!(a, read(CONTROLLER + offsets::m_iszPlayerName, ReadKind::Bytes(16)));
    let a = l.step(Some(Word::Bytes(padded("zywoo", 16))));
    assert_eq!(a, read(PAWN + offsets::m_pClippingWeapon, ReadKind::Usize));
    let a = l.step(Some(Word::Usize(0x3000)));
    assert_eq!(a, read(0x3000 + 0x360, ReadKind::Usize));
    let a = l.step(Some(Word::Usize(0x4000)));
    assert_eq!(a, read(0x4000 + offsets::m_szName, ReadKind::Usize));
    let a = l.step(Some(Word::Usize(0x5000)));
    assert_eq!(a, read(PAWN + offsets::m_iTeamNum, ReadKind::U8));
    let a = l.step(Some(Word::U8(2)));
    assert_eq!(a, read(CONTROLLER + offsets::m_pInGameMoneyServices, ReadKind::Usize));
    let a = l.step(Some(Word::Usize(0x6000)));
    assert_eq!(a, read(PAWN + offsets::m_pGameSceneNode, ReadKind::Usize));
    let a = l.step(Some(Word::Usize(0x7000)));
    assert_eq!(a, read(0x7000 + 0x160 + 0x80, ReadKind::Usize));
    let a = l.step(Some(Word::Usize(0x8000)));
    assert_eq!(a, LoadAction::Refresh);
    let e = &l.entity;
    assert_eq!(e.team_number, 2);
    assert_eq!(e.team_str, "terrorist");
    assert_eq!(e.weapon_name_ptr, 0x5000);
    assert_eq!(e.money_service, 0x6000);
    assert_eq!(e.bone_arr_addr, 0x8000);
    assert!(e.name.starts_with("zywoo"));
    assert_eq!(e.health, 0);
    // Nothing more is asked once loaded.
    assert_eq!(l.step(None), LoadAction::Refresh);
}

#[test]
fn dead_player_does_not_load() {
    let (mut l, _) = EntityLoader::new(CONTROLLER, PAWN);
    assert_eq!(l.step(Some(Word::U32(0))), LoadAction::Fail(LoadError::PlayerDead));
    let (mut l, _) = EntityLoader::new(CONTROLLER, PAWN);
    assert_eq!(l.step(None), LoadAction::Fail(LoadError::PlayerDead));
}

#[test]
fn player_without_weapon_is_dead() {
    let (mut l, _) = EntityLoader::new(CONTROLLER, PAWN);
    l.step(Some(Word::U32(50)));
    l.step(Some(Word::Bytes(vec![0xff])));
    assert_eq!(l.entity.name, "crappy name");
    assert_eq!(l.step(Some(Word::Usize(0))), LoadAction::Fail(LoadError::PlayerDead));
}

#[test]
fn weapon_without_name_is_unavailable() {
    let (mut l, _) = EntityLoader::new(CONTROLLER, PAWN);
    l.step(Some(Word::U32(50)));
    l.step(Some(Word::Bytes(padded("x", 16))));
    l.step(Some(Word::Usize(0x3000)));
    l.step(Some(Word::Usize(0x4000)));
    assert_eq!(l.step(None), LoadAction::Fail(LoadError::GunUnavailable));
}

#[test]
fn failed_required_read_faults() {
    let (mut l, _) = EntityLoader::new(CONTROLLER, PAWN);
    l.step(Some(Word::U32(50)));
    assert_eq!(l.step(None), LoadAction::Fault);
    let (l, a) = EntityLoader::new(CONTROLLER, usize::MAX);
    assert_eq!(a, LoadAction::Fault);
    let _ = l;
}

#[test]
fn refresh_reads_health_weapon_and_money() {
    let mut e = Entity::empty(PAWN, CONTROLLER);
    e.weapon_name_ptr = 0x5000;
    e.money_service = 0x6000;
    e.bone_arr_addr = 0x8000;
    let mut names = WeaponNames::new();
    let (mut r, a) = EntityRefresh::new(e);
    assert_eq!(a, RefreshAction::Read(ReadRequest { address: PAWN + offsets::m_iHealth, kind: ReadKind::U32 }));
    let a = r.step(&mut names, Some(Word::U32(87)));
    assert_eq!(a, RefreshAction::Read(ReadRequest { address: 0x5000, kind: ReadKind::Bytes(32) }));
    let a = r.step(&mut names, Some(Word::Bytes(padded("weapon_awp", 32))));
    assert_eq!(a, RefreshAction::Origin { address: PAWN + offsets::m_vOldOrigin });
    let a = r.step(&mut names, None);
    assert_eq!(a, RefreshAction::Read(ReadRequest { address: 0x6000 + offsets::m_iTotalCashSpent, kind: ReadKind::I32 }));
    let a = r.step(&mut names, Some(Word::I32(3100)));
    assert_eq!(a, RefreshAction::Read(ReadRequest { address: 0x6000 + offsets::m_iAccount, kind: ReadKind::I32 }));
    let a = r.step(&mut names, Some(Word::I32(800)));
    assert_eq!(a, RefreshAction::Bones { base: 0x8000 });
    let a = r.step(&mut names, None);
    assert_eq!(a, RefreshAction::Done);
    assert_eq!(r.entity.health, 87);
    assert_eq!(r.entity.weapon, "awp");
    assert_eq!(r.entity.spent_money, 3100);
    assert_eq!(r.entity.money, 800);
}

#[test]
fn refresh_of_dead_player_stops_at_health() {
    let mut e = Entity::empty(PAWN, CONTROLLER);
    e.weapon_name_ptr = 0x5000;
    e.health = 40;
    let mut names = WeaponNames::new();
    let (mut r, _) = EntityRefresh::new(e);
    assert_eq!(r.step(&mut names, Some(Word::U32(0))), RefreshAction::Done);
    assert_eq!(r.entity.health, 0);
}

#[test]
fn refresh_without_money_or_bones() {
    let e = Entity::empty(PAWN, CONTROLLER);
    let mut names = WeaponNames::new();
    let (mut r, _) = EntityRefresh::new(e);
    assert_eq!(
        r.step(&mut names, Some(Word::U32(5))),
        RefreshAction::Origin { address: PAWN + offsets::m_vOldOrigin }
    );
    assert_eq!(r.step(&mut names, None), RefreshAction::Done);
    let mut e = Entity::empty(PAWN, CONTROLLER);
    e.money_service = 0x6000;
    let (mut r, _) = EntityRefresh::new(e);
    r.step(&mut names, Some(Word::U32(5)));
    r.step(&mut names, None);
    assert_eq!(r.step(&mut names, None), RefreshAction::Fault);
}

#[test]
fn team_labels() {
    assert_eq!(team_label_of(2), "terrorist");
    assert_eq!(team_label_of(3), "ct");
    assert_eq!(team_label_of(0), "ct");
}

#[test]
fn health_colours() {
    assert_eq!(health_color_channels(100), [155, 255, 40, 255]);
    assert_eq!(health_color_channels(0), [255, 55, 140, 255]);
    assert_eq!(health_color_channels(50), [205, 155, 90, 255]);
    // Above full health the green channel wraps.
    assert_eq!(health_color_channels(101), [154, 1, 39, 255]);
    let mut e = Entity::default();
    e.health = 100;
    assert_eq!(e.calculate_color(), egui::Color32::from_rgba_premultiplied(155, 255, 40, 255));
    assert_eq!(e.calculate_color().to_array(), [155, 255, 40, 255]);
}

#[test]
fn default_entity_is_empty() {
    let e = Entity::default();
    assert_eq!(e.pawn, 0);
    assert_eq!(e.health, 0);
    assert!(e.name.is_empty());
    assert!(e.weapon.is_empty());
}

/// Runs a refresh to its end against fixed memory.
fn refresh_with(e: Entity, names: &mut WeaponNames) -> Entity {
    let (mut r, mut a) = EntityRefresh::new(e);
    loop {
        a = match a {
            RefreshAction::Read(ReadRequest { kind: ReadKind::U32, .. }) => r.step(names, Some(Word::U32(64))),
            RefreshAction::Read(ReadRequest { kind: ReadKind::Bytes(_), .. }) => {
                r.step(names, Some(Word::Bytes(padded("weapon_m4a1", 32))))
            },
            RefreshAction::Read(ReadRequest { address, .. }) => r.step(names, Some(Word::I32(address as i32 & 0xfff))),
            RefreshAction::Origin { .. } | RefreshAction::Bones { .. } => r.step(names, None),
            RefreshAction::Done | RefreshAction::Fault => return r.entity,
        };
    }
}

#[test]
fn second_refresh_changes_nothing() {
    let mut e = Entity::empty(PAWN, CONTROLLER);
    e.weapon_name_ptr = 0x5000;
    e.money_service = 0x6000;
    e.bone_arr_addr = 0x8000;
    let mut names = WeaponNames::new();
    let once = refresh_with(e, &mut names);
    let (h, w, s, m) = (once.health, once.weapon.clone(), once.spent_money, once.money);
    let twice = refresh_with(once, &mut names);
    assert_eq!((twice.health, twice.weapon.as_str(), twice.spent_money, twice.money), (h, w.as_str(), s, m));
    assert!(twice.weapon.starts_with("m4a1"));
}
