//! The scheduler: what the main loop does on each wake-up.
//!
//! The loop is woken by an event on the bus, by the closing of the bus, or
//! by the periodic check of the cancellation flag. It waits and draws,
//! which is the caller's part; what a wake-up leads to is decided here.

use vstd::prelude::*;
use crate::app::AppState;
use crate::event::AppEvent;
use crate::ui::keybindings::{KeyAction, after_key, after_mouse, handle_key, handle_mouse};

verus! {

/// What wakes the scheduler.
#[derive(Debug)]
pub enum Wakeup {
    /// The periodic check of the cancellation flag came due.
    CancelCheck,
    /// An event arrived on the bus.
    Event(AppEvent),
    /// The bus was closed: no event can arrive any more.
    Closed,
}

/// What the scheduler does on a wake-up.
#[derive(Debug, Clone, Copy, PartialEq, Eq, Structural)]
pub struct Turn {
    /// Whether the screen is to be redrawn, once.
    pub redraw: bool,
    /// Whether serving the wake-up ends the loop.
    pub exit: bool,
}

/// Whether a wake-up asks for a redraw: only the render event does.
pub open spec fn asks_redraw(wakeup: Wakeup) -> bool {
    wakeup matches Wakeup::Event(AppEvent::Render)
}

/// Whether a wake-up by itself ends the loop: the quit event and the
/// closing of the bus do.
pub open spec fn asks_exit(wakeup: Wakeup) -> bool {
    match wakeup {
        Wakeup::Closed => true,
        Wakeup::Event(AppEvent::Quit) => true,
        _ => false,
    }
}

/// The turn that a wake-up asks for by itself.
pub open spec fn turn_of(wakeup: Wakeup) -> Turn {
    Turn { redraw: asks_redraw(wakeup), exit: asks_exit(wakeup) }
}

/// The state after an event was delivered to it, and whether the
/// application goes on: keys and mouse events go through their dispatch,
/// a result of the diff worker is taken in, and nothing else touches the
/// state.
pub open spec fn after_event(state: AppState, event: AppEvent) -> (AppState, KeyAction) {
    match event {
        AppEvent::Key(key) => after_key(state, key),
        AppEvent::Mouse(mouse) => (after_mouse(state, mouse), KeyAction::Continue),
        AppEvent::GitResult(payload) => (state.with_result(*payload), KeyAction::Continue),
        _ => (state, KeyAction::Continue),
    }
}

/// The state after a wake-up was served, and the turn taken. A wake-up that
/// ends the loop by itself leaves the state alone. Any other event is
/// delivered to the state, and the loop ends if the dispatch of a key says
/// so.
pub open spec fn after_wakeup(state: AppState, wakeup: Wakeup) -> (AppState, Turn) {
    if asks_exit(wakeup) {
        (state, turn_of(wakeup))
    } else {
        match wakeup {
            Wakeup::Event(event) => (
                after_event(state, event).0,
                Turn {
                    redraw: asks_redraw(wakeup),
                    exit: after_event(state, event).1 == KeyAction::Quit,
                },
            ),
            _ => (state, turn_of(wakeup)),
        }
    }
}

/// Decides what a wake-up asks for by itself.
///
/// The screen is redrawn on the render event and on nothing else. The quit
/// event and the closing of the bus end the loop.
pub fn schedule(wakeup: &Wakeup) -> (turn: Turn)
    ensures
        turn == turn_of(*wakeup),
{
    let redraw = match wakeup {
        Wakeup::Event(AppEvent::Render) => true,
        _ => false,
    };
    let exit = match wakeup {
        Wakeup::Closed => true,
        Wakeup::Event(AppEvent::Quit) => true,
        _ => false,
    };
    Turn { redraw, exit }
}

/// Delivers an event to the state.
pub fn deliver(event: AppEvent, state: &mut AppState) -> (r: KeyAction)
    ensures
        (*final(state), r) == after_event(*old(state), event),
{
    match event {
        AppEvent::Key(key) => handle_key(key, state),
        AppEvent::Mouse(mouse) => handle_mouse(mouse, state),
        AppEvent::GitResult(payload) => {
            state.apply_git_result(*payload);
            KeyAction::Continue
        },
        _ => KeyAction::Continue,
    }
}

/// Serves a wake-up: decides the turn and delivers the event, if there is
/// one to deliver. The screen is to be redrawn afterwards if the turn says
/// so.
pub fn serve(wakeup: Wakeup, state: &mut AppState) -> (turn: Turn)
    ensures
        (*final(state), turn) == after_wakeup(*old(state), wakeup),
        turn.redraw == asks_redraw(wakeup),
{
    let asked = schedule(&wakeup);
    if asked.exit {
        return asked;
    }
    match wakeup {
        Wakeup::Event(event) => {
            let action = deliver(event, state);
            let quits = match action {
                KeyAction::Quit => true,
                KeyAction::Continue => false,
            };
            Turn { redraw: asked.redraw, exit: quits }
        },
        _ => asked,
    }
}

impl Turn {
    /// Whether the loop ends after this turn. The cancellation flag is read
    /// once the wake-up was served; if it is set the loop ends on every
    /// wake-up, the periodic check included.
    pub open spec fn ends(self, cancelled: bool) -> bool {
        self.exit || cancelled
    }

    /// Whether the loop ends after this turn, given the cancellation flag as
    /// it is read once the wake-up was served.
    pub fn ends_loop(self, cancelled: bool) -> (r: bool)
        ensures
            r == self.ends(cancelled),
    {
        self.exit || cancelled
    }
}

/// One turn of a run of the scheduler, with the cancellation flag as it
/// stood once the wake-up was served.
pub struct Moment {
    pub turn: Turn,
    pub cancelled: bool,
}

/// How many wake-ups the loop serves of those that come: all up to and
/// including the first one whose turn ends the loop.
pub open spec fn turns_taken(moments: Seq<Moment>) -> nat
    decreases moments.len(),
{
    if moments.len() == 0 {
        0
    } else if moments[0].turn.ends(moments[0].cancelled) {
        1
    } else {
        1 + turns_taken(moments.subrange(1, moments.len() as int))
    }
}

/// How many times the screen is redrawn over a run.
pub open spec fn redraws(moments: Seq<Moment>) -> nat
    decreases moments.len(),
{
    if moments.len() == 0 {
        0
    } else {
        let first: nat = if moments[0].turn.redraw {
            1
        } else {
            0
        };
        if moments[0].turn.ends(moments[0].cancelled) {
            first
        } else {
            first + redraws(moments.subrange(1, moments.len() as int))
        }
    }
}

/// How many of the first `upto` turns ask for a redraw. A turn asks for one
/// exactly if its wake-up is the render event.
pub open spec fn redraw_turns(moments: Seq<Moment>, upto: nat) -> nat
    decreases upto,
{
    if upto == 0 || moments.len() == 0 {
        0
    } else {
        let first: nat = if moments[0].turn.redraw {
            1
        } else {
            0
        };
        first + redraw_turns(moments.subrange(1, moments.len() as int), (upto - 1) as nat)
    }
}

/// Once the cancellation flag is set, the loop ends with the wake-up that
/// finds it set, whatever that wake-up is: no wake-up after it is served.
/// The periodic check is such a wake-up, so the loop ends within one period
/// of it even if nothing else happens.
pub proof fn lemma_cancellation_ends_loop(moments: Seq<Moment>, at: int)
    requires
        0 <= at < moments.len(),
        moments[at].cancelled,
    ensures
        turns_taken(moments) <= at + 1,
    decreases moments.len(),
{
    if at > 0 && !moments[0].turn.ends(moments[0].cancelled) {
        let rest = moments.subrange(1, moments.len() as int);
        lemma_cancellation_ends_loop(rest, at - 1);
    }
}

/// The loop ends in the same way with the first turn that asks for it.
pub proof fn lemma_exit_turn_ends_loop(moments: Seq<Moment>, at: int)
    requires
        0 <= at < moments.len(),
        moments[at].turn.exit,
    ensures
        turns_taken(moments) <= at + 1,
    decreases moments.len(),
{
    if at > 0 && !moments[0].turn.ends(moments[0].cancelled) {
        let rest = moments.subrange(1, moments.len() as int);
        lemma_exit_turn_ends_loop(rest, at - 1);
    }
}

/// Over a run the screen is redrawn exactly once for each turn served that
/// asks for it, and so once for each render event served and never for
/// anything else.
pub proof fn lemma_one_redraw_per_render_event(moments: Seq<Moment>)
    ensures
        redraws(moments) == redraw_turns(moments, turns_taken(moments)),
        turns_taken(moments) <= moments.len(),
    decreases moments.len(),
{
    if moments.len() > 0 {
        let rest = moments.subrange(1, moments.len() as int);
        lemma_one_redraw_per_render_event(rest);
        if moments[0].turn.ends(moments[0].cancelled) {
            assert(redraw_turns(rest, 0) == 0);
        }
    }
}

} // verus!
