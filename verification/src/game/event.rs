//! What is broadcast to everyone who watches a live game.

use vstd::prelude::*;

use crate::domain::clock::{Clock, ClockView};
use crate::variant::json::JsonView;
use crate::variant::payload;
use crate::variant::payload::Event;
use crate::variant::status::GameStatus;

verus! {

/// A live update: what an action brought about, and the status after it.
#[derive(Debug, PartialEq, Eq)]
pub struct GameEvent {
    /// What happened, in order.
    pub events: Vec<Event>,
    /// The status after the action.
    pub status: GameStatus,
    /// Both clocks after the action; `None` when the game tracks no time.
    pub clock: Option<Clock>,
}

/// The mathematical model of a [`GameEvent`].
pub struct GameEventView {
    /// What happened, in order.
    pub events: Seq<JsonView>,
    /// The status after the action.
    pub status: GameStatus,
    /// Both clocks after the action.
    pub clock: Option<ClockView>,
}

/// The model of an optional clock.
pub open spec fn clock_view(clock: Option<Clock>) -> Option<ClockView> {
    match clock {
        Some(c) => Some(c@),
        None => None,
    }
}

impl GameEvent {
    /// The model of the update.
    pub open spec fn view(self) -> GameEventView {
        GameEventView {
            events: payload::events_view(self.events@),
            status: self.status,
            clock: clock_view(self.clock),
        }
    }

    /// An update without clocks.
    #[must_use]
    pub fn new(events: Vec<Event>, status: GameStatus) -> (r: Self)
        ensures
            r == (GameEvent { events, status, clock: None }),
    {
        GameEvent { events, status, clock: None }
    }

    /// The update with these clocks.
    #[must_use]
    pub fn with_clock(self, clock: Option<Clock>) -> (r: Self)
        ensures
            r == (GameEvent { clock, ..self }),
    {
        GameEvent { events: self.events, status: self.status, clock }
    }

    /// Whether the game ended with this update.
    #[must_use]
    pub fn is_finished(&self) -> (r: bool)
        ensures
            r == (self.status is Finished),
    {
        self.status.is_finished()
    }
}

impl Clone for GameEvent {
    fn clone(&self) -> (r: Self)
        ensures
            r@ == self@,
    {
        GameEvent {
            events: payload::clone_events(&self.events),
            status: self.status.clone(),
            clock: self.clock,
        }
    }
}

/// An update holds what happened and the status after it, and carries the clocks it was
/// given; it ends the game exactly when that status does.
pub proof fn updates_hold_what_happened(
    events: Vec<Event>,
    status: GameStatus,
    clock: Option<Clock>,
    bare: GameEvent,
    timed: GameEvent,
    over: bool,
)
    requires
        call_ensures(GameEvent::new, (events, status), bare),
        call_ensures(GameEvent::with_clock, (bare, clock), timed),
        call_ensures(GameEvent::is_finished, (&timed,), over),
    ensures
        bare.events@ == events@ && bare.status == status && bare.clock is None,
        timed.events@ == events@ && timed.status == status && timed.clock == clock,
        over <==> status != GameStatus::Ongoing,
{
}

} // verus!
