use vstd::prelude::*;
use crate::state::{AppState, Interaction};
use crate::flow::{
    Event, Transition, after_event, fires, initial, log_lines, pressed, pressed_then_frame, run,
    transitions,
};

verus! {

/// How the two facts about a run grow by one event.
proof fn lemma_extend(ev: Seq<Event>)
    requires
        ev.len() > 0,
    ensures
        pressed_then_frame(ev) == (pressed_then_frame(ev.drop_last()) || (ev.last() is Frame
            && pressed(ev.drop_last()))),
        pressed(ev) == (pressed(ev.drop_last()) || ev.last() == Event::Interact(
            Interaction::Pressed,
        )),
{
    let p = ev.drop_last();
    let n = ev.len() - 1;
    if pressed_then_frame(ev) {
        let (i, j) = choose|i: int, j: int|
            #![trigger ev[i], ev[j]]
            0 <= i < j < ev.len() && ev[i] == Event::Interact(Interaction::Pressed) && ev[j] is Frame;
        if j < n {
            assert(p[i] == ev[i] && p[j] == ev[j]);
        } else {
            assert(p[i] == ev[i]);
        }
    }
    if pressed_then_frame(p) {
        let (i, j) = choose|i: int, j: int|
            #![trigger p[i], p[j]]
            0 <= i < j < p.len() && p[i] == Event::Interact(Interaction::Pressed) && p[j] is Frame;
        assert(p[i] == ev[i] && p[j] == ev[j]);
    }
    if ev.last() is Frame && pressed(p) {
        let i = choose|i: int| 0 <= i < p.len() && p[i] == Event::Interact(Interaction::Pressed);
        assert(p[i] == ev[i] && ev[n] == ev.last());
    }
    if pressed(ev) {
        let i = choose|i: int| 0 <= i < ev.len() && ev[i] == Event::Interact(Interaction::Pressed);
        if i < n {
            assert(p[i] == ev[i]);
        }
    }
    if pressed(p) {
        let i = choose|i: int| 0 <= i < p.len() && p[i] == Event::Interact(Interaction::Pressed);
        assert(p[i] == ev[i]);
    }
    if ev.last() == Event::Interact(Interaction::Pressed) {
        assert(ev[n] == ev.last());
    }
}

/// A run from the start enters the game exactly when the button has been
/// pressed and a barrier has come after the press, and it then makes
/// exactly one transition; hovering or leaving the button alone makes none.
/// Until then the menu is shown, with a request standing from the first
/// press on.
pub proof fn lemma_press_enters_game_once(ev: Seq<Event>)
    ensures
        run(ev).state == (if pressed_then_frame(ev) {
            AppState::InGame
        } else {
            AppState::Menu
        }),
        run(ev).pending == (if !pressed_then_frame(ev) && pressed(ev) {
            Some(AppState::InGame)
        } else {
            None
        }),
        transitions(ev) == (if pressed_then_frame(ev) {
            1nat
        } else {
            0nat
        }),
    decreases ev.len(),
{
    if ev.len() > 0 {
        lemma_press_enters_game_once(ev.drop_last());
        lemma_extend(ev);
    }
}

/// A run from the start makes at most one transition, so the game scene is
/// built at most once.
pub proof fn lemma_at_most_one_transition(ev: Seq<Event>)
    ensures
        transitions(ev) <= 1,
{
    lemma_press_enters_game_once(ev);
}

/// A run in which the button is never pressed stays in the menu.
pub proof fn lemma_no_press_stays_in_menu(ev: Seq<Event>)
    requires
        !pressed(ev),
    ensures
        run(ev) == initial(),
        transitions(ev) == 0,
{
    lemma_press_enters_game_once(ev);
    if pressed_then_frame(ev) {
        let (i, j) = choose|i: int, j: int|
            #![trigger ev[i], ev[j]]
            0 <= i < j < ev.len() && ev[i] == Event::Interact(Interaction::Pressed) && ev[j] is Frame;
        assert(pressed(ev));
    }
}

/// A run from the start logs one line per transition: none until the game
/// is entered, then the single line that names the menu first and the game
/// second.
pub proof fn lemma_one_line_per_transition(ev: Seq<Event>)
    ensures
        log_lines(ev).len() == transitions(ev),
        log_lines(ev) == (if pressed_then_frame(ev) {
            seq![(Transition { before: AppState::Menu, after: AppState::InGame }).line_spec()]
        } else {
            Seq::<Seq<char>>::empty()
        }),
    decreases ev.len(),
{
    if ev.len() > 0 {
        let p = ev.drop_last();
        lemma_one_line_per_transition(p);
        lemma_press_enters_game_once(p);
        lemma_press_enters_game_once(ev);
        lemma_extend(ev);
        if pressed_then_frame(ev) && !pressed_then_frame(p) {
            assert(log_lines(ev) =~= seq![(Transition { before: AppState::Menu, after: AppState::InGame }).line_spec()]);
        } else {
            assert(log_lines(ev) =~= log_lines(p));
        }
    }
}

/// A transition is always into a different state, and the state it enters
/// is the one that was requested.
pub proof fn lemma_transition_changes_state(p: crate::flow::Phase, e: Event)
    requires
        fires(p, e),
    ensures
        after_event(p, e).state != p.state,
        Some(after_event(p, e).state) == p.pending,
        after_event(p, e).pending is None,
{
}

/// The diagnostic line tells the transition: the state left comes first and
/// the state entered second, so two transitions log the same line only if
/// they are the same.
pub proof fn lemma_line_determines_transition(a: Transition, b: Transition)
    ensures
        a.line_spec() == b.line_spec() <==> a == b,
{
    reveal_strlit("transition: ");
    reveal_strlit(" => ");
    reveal_strlit("Menu");
    reveal_strlit("InGame");
    if a.line_spec() == b.line_spec() {
        if a.before != b.before {
            assert(a.line_spec()[12] == a.before.label()[0]);
            assert(b.line_spec()[12] == b.before.label()[0]);
        } else if a.after != b.after {
            let k: int = 12 + a.before.label().len() as int + 4;
            assert(a.line_spec()[k] == a.after.label()[0]);
            assert(b.line_spec()[k] == b.after.label()[0]);
        }
    }
}

} // verus!
