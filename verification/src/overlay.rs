//! Decisions of the overlay window: its size, whether it lets the mouse
//! through, and how each player's box is coloured.
use vstd::prelude::*;
use vstd::string::*;
use crate::entity::{health_channels, health_color_channels};

verus! {

/// The characters of `Counter-Strike 2`, the title of the game's window.
pub open spec fn game_window_title() -> Seq<char> {
    seq!['C', 'o', 'u', 'n', 't', 'e', 'r', '-', 'S', 't', 'r', 'i', 'k', 'e', ' ', '2']
}

/// The UTF-16 units of an ASCII text, one per character, and a closing zero.
pub open spec fn wide_nul_terminated(s: Seq<char>) -> Seq<u16> {
    s.map_values(|c: char| c as u16).push(0u16)
}

/// The title of the game's window as a zero-terminated UTF-16 string, as the
/// system's window functions take it.
pub fn game_window_name() -> (name: Vec<u16>)
    ensures
        name@ == wide_nul_terminated(game_window_title()),
{
    let title = "Counter-Strike 2";
    proof {
        reveal_strlit("Counter-Strike 2");
        assert(title@ =~= game_window_title());
    }
    let n = title.unicode_len();
    let mut out: Vec<u16> = Vec::new();
    let mut i: usize = 0;
    while i < n
        invariant
            n == title@.len(),
            title@ == game_window_title(),
            i <= n,
            out@ == title@.subrange(0, i as int).map_values(|c: char| c as u16),
        decreases n - i,
    {
        let c = title.get_char(i);
        proof {
            assert(title@[i as int] == c);
            assert(c as u32 <= 0x7f);
        }
        out.push(c as u16);
        proof {
            assert(title@.subrange(0, i + 1).map_values(|c: char| c as u16) =~= title@.subrange(
                0,
                i as int,
            ).map_values(|c: char| c as u16).push(c as u16));
        }
        i = i + 1;
    }
    out.push(0u16);
    assert(title@.subrange(0, n as int) =~= title@);
    out
}

/// The size of the overlay window: the game's window once it is found,
/// 500 by 500 while it is awaited.
pub open spec fn overlay_size(found_game: bool, game_right: i32, game_bottom: i32) -> (i32, i32) {
    if found_game {
        (game_right, game_bottom)
    } else {
        (500, 500)
    }
}

/// The size of the overlay window.
pub fn window_size(found_game: bool, game_right: i32, game_bottom: i32) -> (size: (i32, i32))
    ensures
        size == overlay_size(found_game, game_right, game_bottom),
{
    if found_game {
        (game_right, game_bottom)
    } else {
        (500, 500)
    }
}

/// The overlay lets the mouse through to the game unless one of its own
/// widgets wants the pointer or the keyboard.
pub fn mouse_passthrough(wants_pointer: bool, wants_keyboard: bool) -> (through: bool)
    ensures
        through == !(wants_pointer || wants_keyboard),
{
    !(wants_pointer || wants_keyboard)
}

/// The colour of a player's box.
#[derive(PartialEq, Eq, Structural, Clone, Copy, Debug)]
pub enum BoxColor {
    /// The colour that marks its health, as red, green, blue and alpha.
    Health(u8, u8, u8, u8),
    White,
}

/// How a player's box is drawn, if at all: a dead player gets none; a
/// player of another team than the local player's gets the colour of its
/// health; a teammate gets a white box, and only when boxes for teammates
/// are asked for.
pub open spec fn box_color(health: u32, team: u8, local_team: u8, team_box: bool) -> Option<BoxColor> {
    if health == 0 {
        None
    } else if team != local_team {
        Some(
            BoxColor::Health(
                health_channels(health)[0],
                health_channels(health)[1],
                health_channels(health)[2],
                health_channels(health)[3],
            ),
        )
    } else if team_box {
        Some(BoxColor::White)
    } else {
        None
    }
}

/// How a player's box is drawn, if at all; the colour of a health above 140
/// would take a channel below zero, so a player of another team must not have
/// more.
pub fn esp_box_color(health: u32, team: u8, local_team: u8, team_box: bool) -> (c: Option<BoxColor>)
    requires
        team != local_team ==> health <= 140,
    ensures
        c == box_color(health, team, local_team, team_box),
{
    if health == 0 {
        None
    } else if team != local_team {
        let rgba = health_color_channels(health);
        Some(BoxColor::Health(rgba[0], rgba[1], rgba[2], rgba[3]))
    } else if team_box {
        Some(BoxColor::White)
    } else {
        None
    }
}

/// A teammate gets a box exactly when boxes for teammates are asked for;
/// every other living player always gets one.
pub proof fn lemma_box_shown(health: u32, team: u8, local_team: u8, team_box: bool)
    requires
        health != 0,
    ensures
        team == local_team ==> (box_color(health, team, local_team, team_box) is Some <==> team_box),
        team != local_team ==> box_color(health, team, local_team, team_box) is Some,
{
}

/// The box of a living player of another team than the local player's has
/// the colour of its health: red 255 - health, green 55 + 2 * health (kept
/// to a byte: 256 less above a health of 100), blue 140 - health, alpha 255.
pub proof fn lemma_enemy_box_color(health: u32, team: u8, local_team: u8, team_box: bool)
    requires
        0 < health <= 140,
        team != local_team,
    ensures
        box_color(health, team, local_team, team_box) matches Some(BoxColor::Health(r, g, b, a)) && {
            &&& r == 255 - health
            &&& g == (if health <= 100 {
                55 + 2 * health
            } else {
                55 + 2 * health - 256
            })
            &&& b == 140 - health
            &&& a == 255
        },
{
    let h = health;
    assert((255 - h) as u8 == 255 - h) by (bit_vector)
        requires
            h <= 140,
    ;
    assert((140 - h) as u8 == 140 - h) by (bit_vector)
        requires
            h <= 140,
    ;
    assert((55 + h * 2) as u8 == (if h <= 100 {
        55 + 2 * h
    } else {
        55 + 2 * h - 256
    })) by (bit_vector)
        requires
            h <= 140,
    ;
}

/// A dead player gets no box; a living teammate gets a white box when boxes
/// for teammates are asked for, and none otherwise.
pub proof fn lemma_team_box(health: u32, team: u8, local_team: u8, team_box: bool)
    ensures
        health == 0 ==> box_color(health, team, local_team, team_box) == None::<BoxColor>,
        health != 0 && team == local_team ==> box_color(health, team, local_team, team_box) == (if team_box {
            Some(BoxColor::White)
        } else {
            None
        }),
{
}

} // verus!
