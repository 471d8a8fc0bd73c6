use cs2_overlay::settings::{GeneralSetting, Misc, Tabs};
use cs2_overlay::trigger::Trigger;

#[test]
fn trigger_defaults() {
    let t = Trigger::new();
    assert!(!t.team);
    assert!(t.enemy);
    assert_eq!(t.delay_ms, 300);
}

#[test]
fn general_settings_default_hides_borders() {
    assert!(!GeneralSetting::default().show_borders);
}

#[test]
fn tabs_compare() {
    assert_eq!(Tabs::Esp, Tabs::Esp);
    assert_ne!(Tabs::Esp, Tabs::Misc);
    let _ = Misc {};
}
