//! The buttons of a menu and the cursor that walks over them.

use crate::fixed::{narrow, saturate, UNIT};
use crate::input::MenuInput;
use crate::math::Rect;
use vstd::prelude::*;

verus! {

#[derive(Clone, Copy, Debug, PartialEq, Eq, Structural)]
pub enum ElementState {
    Normal,
    Selected,
    Clicked,
}

/// A button: how it looks at the moment, what it says, and where it is drawn
/// (`dest` holds its top left corner and its size).
#[derive(Clone, Debug)]
pub struct Button {
    pub state: ElementState,
    pub name: String,
    pub dest: Rect,
}

/// A column of buttons, one of which is under the cursor.
pub struct Ui {
    pub cursor: usize,
    pub widgets: Vec<Button>,
}

impl Button {
    pub fn new(dest: Rect, name: String) -> (button: Self)
        ensures
            button.state == ElementState::Normal,
            button.name == name,
            button.dest == dest,
    {
        Self { state: ElementState::Normal, name, dest }
    }

    /// Where the back button stands on a screen of the given height: in the
    /// lower left corner.
    pub open spec fn back_place(screen_height: int) -> Rect {
        Rect {
            x: (10 * UNIT) as i64,
            y: saturate(screen_height - 50 * UNIT) as i64,
            w: (180 * UNIT) as i64,
            h: (40 * UNIT) as i64,
        }
    }

    /// The button that leads back, in the lower left corner of a screen of
    /// the given height.
    pub fn back_button(screen_height: i64) -> (button: Self)
        ensures
            button.state == ElementState::Normal,
            button.name@ == "Back"@,
            button.dest == Self::back_place(screen_height as int),
    {
        Self {
            state: ElementState::Normal,
            name: "Back".to_string(),
            dest: Rect::new(
                10 * UNIT,
                narrow(screen_height as i128 - 50 * (UNIT as i128)),
                180 * UNIT,
                40 * UNIT,
            ),
        }
    }

    pub fn is_clicked(&self) -> (clicked: bool)
        ensures
            clicked == (self.state == ElementState::Clicked),
    {
        self.state == ElementState::Clicked
    }
}

impl From<Vec<Button>> for Ui {
    /// A column of the given buttons with the cursor on the first.
    fn from(widgets: Vec<Button>) -> (ui: Self) {
        Self { cursor: 0, widgets }
    }
}

impl vstd::std_specs::convert::FromSpecImpl<Vec<Button>> for Ui {
    open spec fn obeys_from_spec() -> bool {
        true
    }

    open spec fn from_spec(widgets: Vec<Button>) -> Self {
        Ui { cursor: 0, widgets }
    }
}

impl Default for Ui {
    fn default() -> (ui: Self)
        ensures
            ui.cursor == 0,
            ui.widgets@.len() == 0,
    {
        Self { cursor: 0, widgets: Vec::new() }
    }
}

/// Where a cursor on button `cursor` of `len` goes: one up or one down, round
/// the ends of the column; up wins over down.
pub open spec fn moved_cursor(cursor: int, len: int, input: MenuInput) -> int {
    if input.up {
        if cursor == 0 {
            len - 1
        } else {
            cursor - 1
        }
    } else if input.down {
        if cursor == len - 1 {
            0
        } else {
            cursor + 1
        }
    } else {
        cursor
    }
}

/// How a button looks after an update: the button under the cursor is
/// selected, or clicked if the input clicks; every other button is normal.
pub open spec fn shown(button: int, cursor: int, input: MenuInput) -> ElementState {
    if button != cursor {
        ElementState::Normal
    } else if input.click {
        ElementState::Clicked
    } else {
        ElementState::Selected
    }
}

impl Ui {
    /// Where the cursor goes; see [`moved_cursor`].
    pub open spec fn cursor_after(self, input: MenuInput) -> int {
        moved_cursor(self.cursor as int, self.widgets.len() as int, input)
    }

    /// Replaces the buttons; the cursor stays where it is.
    pub fn build(&mut self, buttons: Vec<Button>)
        ensures
            final(self).widgets == buttons,
            final(self).cursor == old(self).cursor,
    {
        self.widgets = buttons;
    }

    /// Moves the cursor as the input says, then marks the button under the
    /// cursor as selected, or as clicked if the input clicks, and every other
    /// button as normal.
    pub fn update(&mut self, input: MenuInput)
        requires
            old(self).widgets.len() > 0,
            old(self).cursor < old(self).widgets.len(),
        ensures
            final(self).cursor == old(self).cursor_after(input),
            final(self).widgets.len() == old(self).widgets.len(),
            forall|i: int|
                0 <= i < final(self).widgets.len() ==> {
                    &&& (#[trigger] final(self).widgets[i]).name == old(self).widgets[i].name
                    &&& final(self).widgets[i].dest == old(self).widgets[i].dest
                    &&& final(self).widgets[i].state == shown(i, final(self).cursor as int, input)
                },
    {
        if input.up {
            self.cursor = if self.cursor == 0 {
                self.widgets.len() - 1
            } else {
                self.cursor - 1
            };
        } else if input.down {
            self.cursor = if self.cursor == self.widgets.len() - 1 {
                0
            } else {
                self.cursor + 1
            };
        }
        let n = self.widgets.len();
        let mut i: usize = 0;
        while i < n
            invariant
                i <= n,
                n == self.widgets.len(),
                n == old(self).widgets.len(),
                self.cursor < n,
                self.cursor == old(self).cursor_after(input),
                forall|j: int|
                    0 <= j < n ==> (#[trigger] self.widgets[j]).name == old(self).widgets[j].name
                        && self.widgets[j].dest == old(self).widgets[j].dest,
                forall|j: int|
                    0 <= j < i ==> (#[trigger] self.widgets[j]).state == shown(
                        j,
                        self.cursor as int,
                        input,
                    ),
            decreases n - i,
        {
            let state = if i != self.cursor {
                ElementState::Normal
            } else if input.click {
                ElementState::Clicked
            } else {
                ElementState::Selected
            };
            self.widgets[i].state = state;
            i += 1;
        }
    }
}

} // verus!
