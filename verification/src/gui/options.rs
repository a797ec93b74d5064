//! The options: a switch for the music and the way back.

use crate::fixed::{narrow, saturate, share, share_of};
use crate::game::gamestate::GameState;
use crate::game::sound::MusicParams;
use crate::gui::button::{moved_cursor, shown, Button, Ui};
use crate::input::MenuInput;
use crate::math::Rect;
use vstd::prelude::*;

verus! {

/// Where the switch for the music stands on a screen `sw` wide and `sh` high:
/// three fortieths of the screen high, six times as wide as high, in the
/// middle of the screen, a quarter of the way down.
pub open spec fn switch_place(sw: int, sh: int) -> Rect {
    let h = share(sh, 3, 40);
    let w = saturate(6 * h);
    Rect {
        x: share(saturate(sw - w), 1, 2) as i64,
        y: share(sh, 1, 4) as i64,
        w: w as i64,
        h: h as i64,
    }
}

/// What the switch for the music says.
pub open spec fn switch_name(music_on: bool) -> Seq<char> {
    if music_on {
        "turn music off"@
    } else {
        "turn music on"@
    }
}

/// What a frame of the options leads to: the switch wins over the way back.
pub open spec fn options_target(cursor: int, input: MenuInput) -> Option<GameState> {
    if input.click && cursor == 0 {
        Some(GameState::Options)
    } else if (input.click && cursor == 1) || input.back {
        Some(GameState::Menu)
    } else {
        None
    }
}

/// One frame of the options on a screen `sw` wide and `sh` high: lays out
/// the switch for the music and the back button, moves the cursor as the
/// input says and marks the buttons. A click on the switch turns the wish for
/// music round and shows the options again; a click on the back button, or
/// the back key, leads to the menu.
pub fn options(
    ui: &mut Ui,
    input: MenuInput,
    music_params: &mut MusicParams,
    sw: i64,
    sh: i64,
) -> (next: Option<GameState>)
    requires
        old(ui).cursor < 2,
    ensures
        final(ui).cursor == moved_cursor(old(ui).cursor as int, 2, input),
        final(ui).widgets.len() == 2,
        final(ui).widgets[0].name@ == switch_name(old(music_params).is_activated),
        final(ui).widgets[0].dest == switch_place(sw as int, sh as int),
        final(ui).widgets[1].name@ == "Back"@,
        final(ui).widgets[1].dest == Button::back_place(sh as int),
        forall|k: int|
            0 <= k < 2 ==> (#[trigger] final(ui).widgets[k]).state == shown(
                k,
                final(ui).cursor as int,
                input,
            ),
        next == options_target(final(ui).cursor as int, input),
        final(music_params).is_activated == (old(music_params).is_activated != (input.click
            && final(ui).cursor == 0)),
        final(music_params).is_playing == old(music_params).is_playing,
        final(music_params).volume == old(music_params).volume,
{
    let h = share_of(sh, 3, 40);
    let w = narrow(6 * (h as i128));
    let dest = Rect::new(share_of(narrow(sw as i128 - w as i128), 1, 2), share_of(sh, 1, 4), w, h);
    let name = if music_params.is_activated {
        "turn music off".to_string()
    } else {
        "turn music on".to_string()
    };
    let mut buttons: Vec<Button> = Vec::new();
    buttons.push(Button::new(dest, name));
    buttons.push(Button::back_button(sh));
    ui.build(buttons);
    ui.update(input);
    if ui.widgets[0].is_clicked() {
        music_params.is_activated = !music_params.is_activated;
        return Some(GameState::Options);
    }
    if ui.widgets[1].is_clicked() || input.back {
        return Some(GameState::Menu);
    }
    None
}

} // verus!
