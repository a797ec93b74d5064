//! The credits: nothing to choose but the way back.

use crate::game::gamestate::GameState;
use crate::gui::button::{shown, Button, Ui};
use crate::input::MenuInput;
use vstd::prelude::*;

verus! {

/// One frame of the credits on a screen `sh` high: lays the back button out
/// and marks it. A click, or the back key, leads to the menu.
pub fn credits(ui: &mut Ui, input: MenuInput, sh: i64) -> (next: Option<GameState>)
    requires
        old(ui).cursor == 0,
    ensures
        final(ui).cursor == 0,
        final(ui).widgets.len() == 1,
        final(ui).widgets[0].name@ == "Back"@,
        final(ui).widgets[0].dest == Button::back_place(sh as int),
        final(ui).widgets[0].state == shown(0, 0, input),
        next == if input.click || input.back {
            Some(GameState::Menu)
        } else {
            None
        },
{
    let mut buttons: Vec<Button> = Vec::new();
    buttons.push(Button::back_button(sh));
    ui.build(buttons);
    ui.update(input);
    if ui.widgets[0].is_clicked() || input.back {
        return Some(GameState::Menu);
    }
    None
}

} // verus!
