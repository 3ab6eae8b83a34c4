use vstd::prelude::*;
use vstd::string::*;

verus! {

/// Which screen of the application is active.
#[derive(Clone, Copy, Debug, PartialEq, Eq, Structural, Hash)]
pub enum AppState {
    Menu,
    InGame,
}

impl Default for AppState {
    /// The application starts in the menu.
    fn default() -> (r: AppState)
        ensures
            r == AppState::Menu,
    {
        AppState::Menu
    }
}

impl AppState {
    /// The name under which a state is shown in diagnostics.
    pub open spec fn label(self) -> Seq<char> {
        match self {
            AppState::Menu => "Menu"@,
            AppState::InGame => "InGame"@,
        }
    }

    pub fn name(&self) -> (r: String)
        ensures
            r@ == self.label(),
    {
        match self {
            AppState::Menu => String::from_str("Menu"),
            AppState::InGame => String::from_str("InGame"),
        }
    }
}

/// Pointer status of a button, as the UI layer reports it.
#[derive(Clone, Copy, Debug, PartialEq, Eq, Structural, Hash)]
pub enum Interaction {
    /// Neither hovered nor pressed.
    Idle,
    Hovered,
    Pressed,
}

} // verus!
