//! The main menu: four buttons in the lower half of the screen.

use crate::fixed::{add_fixed, narrow, plus, saturate, share, share_of};
use crate::game::gamestate::{GameMode, GameState};
use crate::gui::button::{moved_cursor, shown, Button, Ui};
use crate::input::MenuInput;
use crate::math::Rect;
use vstd::prelude::*;

verus! {

/// The height of a button on a screen of height `sh`: three quarters of an
/// eighth of the screen.
pub open spec fn button_height(sh: int) -> int {
    share(sh, 3, 32)
}

/// Where button `k` of the main menu stands on a screen `sw` wide and `sh`
/// high: six times as wide as high, in the middle of the screen, the first
/// at half height and each next one an eighth of the screen lower.
pub open spec fn menu_place(sw: int, sh: int, k: int) -> Rect {
    let h = button_height(sh);
    let w = saturate(6 * h);
    Rect {
        x: share(saturate(sw - w), 1, 2) as i64,
        y: plus(share(sh, 1, 2), saturate(k * share(sh, 1, 8))) as i64,
        w: w as i64,
        h: h as i64,
    }
}

/// What button `k` of the main menu says.
pub open spec fn menu_name(k: int) -> Seq<char> {
    if k == 0 {
        "Play"@
    } else if k == 1 {
        "Options"@
    } else if k == 2 {
        "Credits"@
    } else {
        "Quit"@
    }
}

/// Where button `k` of the main menu leads.
pub open spec fn menu_target(k: int) -> GameState {
    if k == 0 {
        GameState::Playing(GameMode::Arcade)
    } else if k == 1 {
        GameState::Options
    } else if k == 2 {
        GameState::Credits
    } else {
        GameState::Quit
    }
}

fn place(sw: i64, sh: i64, k: i64) -> (r: Rect)
    requires
        0 <= k < 4,
    ensures
        r == menu_place(sw as int, sh as int, k as int),
{
    let h = share_of(sh, 3, 32);
    let w = narrow(6 * (h as i128));
    let step = share_of(sh, 1, 8);
    assert(-0x2_0000_0000_0000_0000 <= k * step <= 0x2_0000_0000_0000_0000) by (nonlinear_arith)
        requires
            0 <= k < 4,
            -0x8000_0000_0000_0000 <= step <= 0x8000_0000_0000_0000,
    ;
    Rect::new(
        share_of(narrow(sw as i128 - w as i128), 1, 2),
        add_fixed(share_of(sh, 1, 2), narrow((k as i128) * (step as i128))),
        w,
        h,
    )
}

/// One frame of the main menu on a screen `sw` wide and `sh` high: lays the
/// four buttons out, moves the cursor as the input says and marks the
/// buttons. Returns where the game goes if the input clicks, and nothing
/// otherwise.
pub fn main_menu(ui: &mut Ui, input: MenuInput, sw: i64, sh: i64) -> (next: Option<GameState>)
    requires
        old(ui).cursor < 4,
    ensures
        final(ui).cursor == moved_cursor(old(ui).cursor as int, 4, input),
        final(ui).widgets.len() == 4,
        forall|k: int|
            0 <= k < 4 ==> {
                &&& (#[trigger] final(ui).widgets[k]).name@ == menu_name(k)
                &&& final(ui).widgets[k].dest == menu_place(sw as int, sh as int, k)
                &&& final(ui).widgets[k].state == shown(k, final(ui).cursor as int, input)
            },
        next == if input.click {
            Some(menu_target(final(ui).cursor as int))
        } else {
            None
        },
{
    let mut buttons: Vec<Button> = Vec::new();
    buttons.push(Button::new(place(sw, sh, 0), "Play".to_string()));
    buttons.push(Button::new(place(sw, sh, 1), "Options".to_string()));
    buttons.push(Button::new(place(sw, sh, 2), "Credits".to_string()));
    buttons.push(Button::new(place(sw, sh, 3), "Quit".to_string()));
    ui.build(buttons);
    ui.update(input);
    if ui.widgets[0].is_clicked() {
        return Some(GameState::set_game_mode(GameMode::Arcade));
    }
    if ui.widgets[1].is_clicked() {
        return Some(GameState::Options);
    }
    if ui.widgets[2].is_clicked() {
        return Some(GameState::Credits);
    }
    if ui.widgets[3].is_clicked() {
        return Some(GameState::Quit);
    }
    None
}

} // verus!
