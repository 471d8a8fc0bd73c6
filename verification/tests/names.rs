use cs2_overlay::names::{fix_weapon_name, player_name_from_raw, weapon_name_from_raw, WeaponNames};
use cs2_overlay::text::{contains_str, remove_all_str};

fn padded(name: &str, len: usize) -> Vec<u8> {
    let mut raw = name.as_bytes().to_vec();
    raw.resize(len, 0);
    raw
}

#[test]
fn weapon_prefix_is_stripped() {
    assert_eq!(fix_weapon_name(String::from("weapon_ak47")), "ak47");
    assert_eq!(fix_weapon_name(String::from("weapon_deagle")), "deagle");
}

#[test]
fn awp_variants_become_awp() {
    assert_eq!(fix_weapon_name(String::from("weapon_awp")), "awp");
    assert_eq!(fix_weapon_name(String::from("weapon_awp_dragon")), "awp");
}

#[test]
fn name_is_cut_at_last_inner_prefix() {
    // The last `weapon_` does not start the name: the name is cut there.
    assert_eq!(fix_weapon_name(String::from("knife_weapon_m4a1")), "knife_");
    // Cut, then the leading prefix removed.
    assert_eq!(fix_weapon_name(String::from("weapon_xweapon_y")), "x");
}

#[test]
fn empty_and_plain_names() {
    assert_eq!(fix_weapon_name(String::new()), "");
    assert_eq!(fix_weapon_name(String::from("knife")), "knife");
}

#[test]
fn removal_can_form_a_new_prefix() {
    // Matches are removed left to right without looking again.
    assert_eq!(remove_all_str("weapweapon_on_", "weapon_"), "weapon_");
}

#[test]
fn raw_class_names_keep_their_padding() {
    let raw = padded("weapon_ak47", 32);
    let name = weapon_name_from_raw(&raw);
    let mut expected = String::from("ak47");
    expected.push_str(&"\0".repeat(21));
    assert_eq!(name, expected);
}

#[test]
fn invalid_utf8_weapon_name_is_empty() {
    assert_eq!(weapon_name_from_raw(&[0xff, 0xfe, b'a']), "");
}

#[test]
fn player_names_decode_or_fall_back() {
    let raw = padded("s1mple", 16);
    let mut expected = String::from("s1mple");
    expected.push_str(&"\0".repeat(10));
    assert_eq!(player_name_from_raw(&raw), expected);
    assert_eq!(player_name_from_raw(&[b'a', 0xc3]), "crappy name");
}

#[test]
fn search_finds_patterns() {
    assert!(contains_str("weapon_revolver", "revolver"));
    assert!(!contains_str("weapon_deagle", "revolver"));
    assert!(contains_str("abc", ""));
}

#[test]
fn cache_gives_what_decoding_gives() {
    let mut names = WeaponNames::new();
    let raw = padded("weapon_awp", 32);
    let first = names.resolve(&raw);
    let second = names.resolve(&raw);
    assert_eq!(first, "awp");
    assert_eq!(first, second);
    assert_eq!(first, weapon_name_from_raw(&raw));
    let other = padded("weapon_mp9", 32);
    assert_eq!(names.resolve(&other), weapon_name_from_raw(&other));
}
