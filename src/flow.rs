use vstd::prelude::*;
use vstd::string::*;
use crate::state::{AppState, Interaction};
use crate::style::{Rgb, shade};
use crate::menu::react;

verus! {

/// Where the menu's UI tree lives while the menu is shown.
#[derive(Clone, Copy, Debug, PartialEq, Eq, Structural, Hash)]
pub struct MenuData {
    /// The root element of the menu's tree.
    pub button_entity: u64,
}

/// A change of state, from `before` to `after`.
#[derive(Clone, Copy, Debug, PartialEq, Eq, Structural, Hash)]
pub struct Transition {
    pub before: AppState,
    pub after: AppState,
}

impl Transition {
    /// The diagnostic line of a transition.
    pub open spec fn line_spec(self) -> Seq<char> {
        "transition: "@ + self.before.label() + " => "@ + self.after.label()
    }

    pub fn line(&self) -> (r: String)
        ensures
            r@ == self.line_spec(),
    {
        let mut r = String::from_str("transition: ");
        let before = self.before.name();
        r.append(before.as_str());
        r.append(" => ");
        let after = self.after.name();
        r.append(after.as_str());
        r
    }
}

/// The part of the application's state that decides transitions: the current
/// state and the transition asked for during this frame, if any.
#[derive(Clone, Copy, Debug, PartialEq, Eq, Structural, Hash)]
pub struct Phase {
    pub state: AppState,
    pub pending: Option<AppState>,
}

/// What can happen to the application between two barriers.
#[derive(Clone, Copy, Debug, PartialEq, Eq, Structural, Hash)]
pub enum Event {
    /// The button's interaction changed.
    Interact(Interaction),
    /// The barrier between frames, where a requested transition is applied.
    Frame,
}

/// The phase at start: in the menu, nothing asked for.
pub open spec fn initial() -> Phase {
    Phase { state: AppState::Menu, pending: None }
}

/// The phase after one event. The button is only read while the menu is
/// shown; a request made there stands until the next barrier.
pub open spec fn after_event(p: Phase, e: Event) -> Phase {
    match e {
        Event::Interact(i) => {
            if p.state == AppState::Menu && i == Interaction::Pressed {
                Phase { state: p.state, pending: Some(AppState::InGame) }
            } else {
                p
            }
        },
        Event::Frame => match p.pending {
            Some(next) => Phase { state: next, pending: None },
            None => p,
        },
    }
}

/// Whether event `e` in phase `p` changes the state.
pub open spec fn fires(p: Phase, e: Event) -> bool {
    &&& e is Frame
    &&& p.pending is Some
    &&& p.pending->0 != p.state
}

/// The phase after a run of events from the start.
pub open spec fn run(ev: Seq<Event>) -> Phase
    decreases ev.len(),
{
    if ev.len() == 0 {
        initial()
    } else {
        after_event(run(ev.drop_last()), ev.last())
    }
}

/// How many transitions a run of events from the start makes.
pub open spec fn transitions(ev: Seq<Event>) -> nat
    decreases ev.len(),
{
    if ev.len() == 0 {
        0
    } else {
        transitions(ev.drop_last()) + if fires(run(ev.drop_last()), ev.last()) {
            1nat
        } else {
            0nat
        }
    }
}

/// The diagnostic lines that a run of events from the start writes, one for
/// each transition, in order.
pub open spec fn log_lines(ev: Seq<Event>) -> Seq<Seq<char>>
    decreases ev.len(),
{
    if ev.len() == 0 {
        Seq::empty()
    } else {
        let p = run(ev.drop_last());
        let t = Transition { before: p.state, after: after_event(p, ev.last()).state };
        log_lines(ev.drop_last()) + if fires(p, ev.last()) {
            seq![t.line_spec()]
        } else {
            Seq::empty()
        }
    }
}

/// Some press of the button is followed, later in `ev`, by a barrier.
pub open spec fn pressed_then_frame(ev: Seq<Event>) -> bool {
    exists|i: int, j: int|
        #![trigger ev[i], ev[j]]
        0 <= i < j < ev.len() && ev[i] == Event::Interact(Interaction::Pressed) && ev[j] is Frame
}

/// The button is pressed somewhere in `ev`.
pub open spec fn pressed(ev: Seq<Event>) -> bool {
    exists|i: int| 0 <= i < ev.len() && ev[i] == Event::Interact(Interaction::Pressed)
}

/// The root that leaving `state` removes, given what the menu recorded.
pub open spec fn exit_despawn(state: AppState, menu: Option<MenuData>) -> Option<u64> {
    if state == AppState::Menu {
        match menu {
            Some(m) => Some(m.button_entity),
            None => None,
        }
    } else {
        None
    }
}

/// What a transition asks of the scene, and the transition itself, to be
/// logged once.
#[derive(Clone, Copy, Debug, PartialEq, Eq, Structural, Hash)]
pub struct Step {
    pub transition: Transition,
    /// The root of a UI tree to remove together with all its descendants.
    pub despawn: Option<u64>,
    /// Whether to build the menu screen.
    pub spawn_menu: bool,
    /// Whether to build the game scene.
    pub spawn_game: bool,
}

/// The application's state machine: requests are queued during a frame and
/// applied at the barrier between frames.
pub struct Flow {
    state: AppState,
    pending: Option<AppState>,
    menu: Option<MenuData>,
}

impl Flow {
    pub closed spec fn phase(&self) -> Phase {
        Phase { state: self.state, pending: self.pending }
    }

    pub closed spec fn menu_view(&self) -> Option<MenuData> {
        self.menu
    }

    /// The state machine at start: in the menu, which is yet to be built.
    pub fn new() -> (r: Flow)
        ensures
            r.phase() == initial(),
            r.menu_view() is None,
    {
        Flow { state: AppState::Menu, pending: None, menu: None }
    }

    pub fn current(&self) -> (r: AppState)
        ensures
            r == self.phase().state,
    {
        self.state
    }

    pub fn pending(&self) -> (r: Option<AppState>)
        ensures
            r == self.phase().pending,
    {
        self.pending
    }

    pub fn menu(&self) -> (r: Option<MenuData>)
        ensures
            r == self.menu_view(),
    {
        self.menu
    }

    /// Records the root of the menu's UI tree once it has been built.
    pub fn menu_spawned(&mut self, button_entity: u64)
        ensures
            final(self).phase() == old(self).phase(),
            final(self).menu_view() == Some(MenuData { button_entity }),
    {
        self.menu = Some(MenuData { button_entity });
    }

    /// Handles a change of the button's interaction. While the menu is shown
    /// it returns the button's new colour, and a press asks for the game;
    /// otherwise the change is ignored.
    pub fn interact(&mut self, i: Interaction) -> (r: Option<Rgb>)
        ensures
            final(self).phase() == after_event(old(self).phase(), Event::Interact(i)),
            final(self).menu_view() == old(self).menu_view(),
            r == (if old(self).phase().state == AppState::Menu {
                Some(shade(i))
            } else {
                None
            }),
    {
        if self.state == AppState::Menu {
            let reaction = react(i);
            match reaction.request {
                Some(next) => {
                    self.pending = Some(next);
                },
                None => {},
            }
            Some(reaction.color)
        } else {
            None
        }
    }

    /// The barrier between frames: applies the requested transition, if it
    /// changes the state, and says what the scene must do for it.
    pub fn apply_pending(&mut self) -> (r: Option<Step>)
        ensures
            final(self).phase() == after_event(old(self).phase(), Event::Frame),
            r is Some <==> fires(old(self).phase(), Event::Frame),
            r matches Some(s) ==> {
                &&& s.transition == (Transition {
                    before: old(self).phase().state,
                    after: final(self).phase().state,
                })
                &&& s.despawn == exit_despawn(old(self).phase().state, old(self).menu_view())
                &&& s.spawn_menu == (final(self).phase().state == AppState::Menu)
                &&& s.spawn_game == (final(self).phase().state == AppState::InGame)
            },
            final(self).menu_view() == (if r is Some && old(self).phase().state == AppState::Menu {
                None
            } else {
                old(self).menu_view()
            }),
    {
        match self.pending {
            None => None,
            Some(next) => {
                self.pending = None;
                if next == self.state {
                    None
                } else {
                    let before = self.state;
                    let mut despawn: Option<u64> = None;
                    if before == AppState::Menu {
                        despawn = match self.menu {
                            Some(m) => Some(m.button_entity),
                            None => None,
                        };
                        self.menu = None;
                    }
                    self.state = next;
                    Some(
                        Step {
                            transition: Transition { before, after: next },
                            despawn,
                            spawn_menu: next == AppState::Menu,
                            spawn_game: next == AppState::InGame,
                        },
                    )
                }
            },
        }
    }
}

} // verus!
