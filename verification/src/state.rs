//! The two screens of the application and the step from the menu into a
//! session.

use vstd::prelude::*;

verus! {

/// The screen the application shows.
#[derive(Clone, Copy, Debug, PartialEq, Eq, Hash, Structural)]
pub enum AppState {
    Menu,
    InGame,
}

impl Default for AppState {
    /// The application opens on the menu.
    fn default() -> (r: AppState)
        ensures
            r == AppState::Menu,
    {
        AppState::Menu
    }
}

impl AppState {
    /// The screen after the menu saw the input of a frame: any of the two
    /// enter keys or a click leaves the menu for the game. A running game is
    /// not left by them.
    pub open spec fn spec_menu_input(self, enter: bool, numpad_enter: bool, click: bool) -> AppState {
        if enter || numpad_enter || click {
            AppState::InGame
        } else {
            self
        }
    }

    /// Computes [`AppState::spec_menu_input`].
    pub fn menu_input(self, enter: bool, numpad_enter: bool, click: bool) -> (r: AppState)
        ensures
            r == self.spec_menu_input(enter, numpad_enter, click),
    {
        if enter || numpad_enter || click {
            AppState::InGame
        } else {
            self
        }
    }
}

} // verus!
