use cs2_overlay::memory::{ReadKind, ReadRequest, Word};
use cs2_overlay::offsets;
use cs2_overlay::trigger::{hold_time, is_key_held, Delay, Trigger, TriggerAction, TriggerBot, TriggerEvent};

const PAWN: usize = 0x1000_0000;
const LIST: usize = 0x2000_0000;

fn ready() -> TriggerBot {
    let (mut bot, a) = TriggerBot::new();
    assert_eq!(a, TriggerAction::LoadLocalPlayer);
    assert_eq!(bot.step(TriggerEvent::LocalPlayer { pawn: PAWN, team: 2 }), TriggerAction::Wait(Delay::Secs(1)));
    assert_eq!(bot.step(TriggerEvent::Resumed), TriggerAction::LoadEntityList);
    assert_eq!(bot.step(TriggerEvent::EntityList(LIST)), TriggerAction::Wait(Delay::Secs(1)));
    assert_eq!(bot.step(TriggerEvent::Resumed), TriggerAction::CheckAbort);
    bot
}

fn aim_at(bot: &mut TriggerBot, settings: Trigger, target_team: u8) -> TriggerAction {
    assert_eq!(bot.step(TriggerEvent::Abort(false)), TriggerAction::ReadKey);
    assert_eq!(bot.step(TriggerEvent::Key(i16::MIN)), TriggerAction::LoadSettings);
    assert_eq!(bot.step(TriggerEvent::Settings(settings)), TriggerAction::Wait(Delay::Millis(settings.delay_ms)));
    let a = bot.step(TriggerEvent::Resumed);
    assert_eq!(a, TriggerAction::Read(ReadRequest { address: PAWN + offsets::m_iIDEntIndex, kind: ReadKind::I32 }));
    // Entity index 0x403: chunk 2, slot 3.
    let a = bot.step(TriggerEvent::Read(Some(Word::I32(0x403))));
    assert_eq!(a, TriggerAction::Read(ReadRequest { address: LIST + 8 * 2 + 0x10, kind: ReadKind::Usize }));
    let a = bot.step(TriggerEvent::Read(Some(Word::Usize(0x3000))));
    assert_eq!(a, TriggerAction::Read(ReadRequest { address: 0x3000 + 120 * 3, kind: ReadKind::Usize }));
    let a = bot.step(TriggerEvent::Read(Some(Word::Usize(0x4000))));
    assert_eq!(a, TriggerAction::Read(ReadRequest { address: 0x4000 + offsets::m_iTeamNum, kind: ReadKind::U8 }));
    bot.step(TriggerEvent::Read(Some(Word::U8(target_team))))
}

#[test]
fn shoots_an_enemy_with_a_short_click() {
    let mut bot = ready();
    assert_eq!(aim_at(&mut bot, Trigger::new(), 3), TriggerAction::LoadWeapon);
    assert_eq!(bot.step(TriggerEvent::Weapon(String::from("ak47"))), TriggerAction::PressButton);
    assert_eq!(bot.step(TriggerEvent::Done), TriggerAction::Wait(Delay::Nanos(150)));
    assert_eq!(bot.step(TriggerEvent::Resumed), TriggerAction::ReleaseButton);
    assert_eq!(bot.step(TriggerEvent::Done), TriggerAction::CheckAbort);
}

#[test]
fn revolver_is_held_longer() {
    let mut bot = ready();
    aim_at(&mut bot, Trigger::new(), 3);
    bot.step(TriggerEvent::Weapon(String::from("revolver")));
    assert_eq!(bot.step(TriggerEvent::Done), TriggerAction::Wait(Delay::Millis(210)));
    assert_eq!(hold_time("weapon_revolver"), Delay::Millis(210));
    assert_eq!(hold_time("deagle"), Delay::Nanos(150));
}

#[test]
fn teammates_are_spared_unless_asked() {
    let mut bot = ready();
    assert_eq!(aim_at(&mut bot, Trigger::new(), 2), TriggerAction::CheckAbort);
    let mut bot = ready();
    let both = Trigger { team: true, enemy: true, delay_ms: 0 };
    assert_eq!(aim_at(&mut bot, both, 2), TriggerAction::LoadWeapon);
    let mut bot = ready();
    let team_only = Trigger { team: true, enemy: false, delay_ms: 5 };
    assert_eq!(aim_at(&mut bot, team_only, 3), TriggerAction::CheckAbort);
}

#[test]
fn team_is_one_byte() {
    // The team field is a byte: a teammate is spared whatever lies after it.
    let mut bot = ready();
    assert_eq!(aim_at(&mut bot, Trigger::new(), 2), TriggerAction::CheckAbort);
    assert_eq!(bot.target_team, 2);
}

#[test]
fn failed_team_read_skips_the_shot() {
    let mut bot = ready();
    bot.step(TriggerEvent::Abort(false));
    bot.step(TriggerEvent::Key(i16::MIN));
    bot.step(TriggerEvent::Settings(Trigger::new()));
    bot.step(TriggerEvent::Resumed);
    bot.step(TriggerEvent::Read(Some(Word::I32(7))));
    bot.step(TriggerEvent::Read(Some(Word::Usize(0x3000))));
    bot.step(TriggerEvent::Read(Some(Word::Usize(0x4000))));
    assert_eq!(bot.step(TriggerEvent::Read(None)), TriggerAction::CheckAbort);
}

#[test]
fn nothing_under_crosshair() {
    let mut bot = ready();
    bot.step(TriggerEvent::Abort(false));
    bot.step(TriggerEvent::Key(-1));
    bot.step(TriggerEvent::Settings(Trigger::new()));
    bot.step(TriggerEvent::Resumed);
    assert_eq!(bot.step(TriggerEvent::Read(Some(Word::I32(-1)))), TriggerAction::CheckAbort);
}

#[test]
fn released_key_rests() {
    let mut bot = ready();
    bot.step(TriggerEvent::Abort(false));
    assert_eq!(bot.step(TriggerEvent::Key(0)), TriggerAction::Wait(Delay::Millis(10)));
    assert_eq!(bot.step(TriggerEvent::Resumed), TriggerAction::CheckAbort);
}

#[test]
fn options_off_skip_the_shot() {
    let mut bot = ready();
    bot.step(TriggerEvent::Abort(false));
    bot.step(TriggerEvent::Key(i16::MIN));
    let off = Trigger { team: false, enemy: false, delay_ms: 300 };
    assert_eq!(bot.step(TriggerEvent::Settings(off)), TriggerAction::CheckAbort);
}

#[test]
fn stop_is_final() {
    let mut bot = ready();
    assert_eq!(bot.step(TriggerEvent::Abort(true)), TriggerAction::Stop);
    assert_eq!(bot.step(TriggerEvent::Resumed), TriggerAction::Stop);
}

#[test]
fn key_state_sign_bit() {
    assert!(is_key_held(i16::MIN));
    assert!(is_key_held(-1));
    assert!(!is_key_held(0));
    assert!(!is_key_held(1));
    assert!(!is_key_held(i16::MAX));
}

#[test]
fn team_only_spares_enemies() {
    let team_only = Trigger { team: true, enemy: false, delay_ms: 5 };
    let mut bot = ready();
    assert_eq!(aim_at(&mut bot, team_only, 3), TriggerAction::CheckAbort);
    let mut bot = ready();
    assert_eq!(aim_at(&mut bot, team_only, 2), TriggerAction::LoadWeapon);
}
