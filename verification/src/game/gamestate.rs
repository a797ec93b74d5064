//! Which screen the game shows.

use vstd::prelude::*;

verus! {

#[derive(Clone, Copy, Debug, PartialEq, Eq, Structural)]
pub enum GameMode {
    Arcade,
    Perso,
}

#[derive(Clone, Copy, Debug, PartialEq, Eq, Structural)]
pub enum GameState {
    Menu,
    Playing(GameMode),
    SelectLevel,
    GameOver,
    Credits,
    Options,
    Quit,
}

impl Default for GameState {
    /// The game starts at the menu.
    fn default() -> (state: Self)
        ensures
            state == GameState::Menu,
    {
        Self::Menu
    }
}

impl GameState {
    /// The game starts at the menu.
    pub fn new() -> (state: Self)
        ensures
            state == GameState::Menu,
    {
        Self::default()
    }

    /// The state in which a race of the given mode is run.
    pub fn set_game_mode(gm: GameMode) -> (state: Self)
        ensures
            state == GameState::Playing(gm),
    {
        GameState::Playing(gm)
    }
}

} // verus!
