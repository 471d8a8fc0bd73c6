use cs2_overlay::overlay::{esp_box_color, game_window_name, mouse_passthrough, window_size, BoxColor};

#[test]
fn window_name_is_wide_and_terminated() {
    let expected: Vec<u16> = "Counter-Strike 2".encode_utf16().chain(std::iter::once(0)).collect();
    assert_eq!(game_window_name(), expected);
}

#[test]
fn window_follows_the_game() {
    assert_eq!(window_size(true, 1920, 1080), (1920, 1080));
    assert_eq!(window_size(false, 1920, 1080), (500, 500));
}

#[test]
fn mouse_goes_through_unless_wanted() {
    assert!(mouse_passthrough(false, false));
    assert!(!mouse_passthrough(true, false));
    assert!(!mouse_passthrough(false, true));
}

#[test]
fn box_colours() {
    assert_eq!(esp_box_color(0, 3, 2, true), None);
    assert_eq!(esp_box_color(100, 3, 2, false), Some(BoxColor::Health(155, 255, 40, 255)));
    assert_eq!(esp_box_color(100, 3, 2, true), Some(BoxColor::Health(155, 255, 40, 255)));
    assert_eq!(esp_box_color(100, 2, 2, false), None);
    assert_eq!(esp_box_color(100, 2, 2, true), Some(BoxColor::White));
    // A teammate's box takes no health colour, so any health is accepted.
    assert_eq!(esp_box_color(500, 2, 2, true), Some(BoxColor::White));
}
