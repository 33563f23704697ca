//! Type-erased payloads at the boundary between a variant and the server.

use vstd::prelude::*;

use crate::variant::error::GameError;
use crate::variant::json::{Json, JsonView};

verus! {

/// A player's action: a move, a sense, a resignation and so on.
#[derive(Debug, PartialEq, Eq)]
pub struct Action {
    value: Json,
}

impl Action {
    /// The JSON value in the payload.
    pub closed spec fn view(self) -> JsonView {
        self.value@
    }

    /// Wraps a JSON value.
    #[must_use]
    pub fn new(value: Json) -> (r: Self)
        ensures
            r@ == value@,
    {
        Action { value }
    }

    /// Wraps the JSON form of a typed value, or reports why it has none.
    pub fn from_typed(encoded: Result<Json, String>) -> (r: Result<Self, GameError>)
        ensures
            match encoded {
                Ok(v) => r is Ok && r->Ok_0@ == v@,
                Err(e) => r == Err::<Action, GameError>(GameError::Serialization(e)),
            },
    {
        match encoded {
            Ok(value) => Ok(Action { value }),
            Err(e) => Err(GameError::Serialization(e)),
        }
    }

    /// Recovers a typed value with `decode`, or reports why the payload has not
    /// its shape.
    pub fn to_typed<T, F: Fn(&Json) -> Result<T, String>>(&self, decode: F) -> (r: Result<
        T,
        GameError,
    >)
        requires
            forall|v: &Json| v@ == self@ ==> #[trigger] decode.requires((v,)),
        ensures
            exists|v: &Json, d: Result<T, String>|
                v@ == self@ && #[trigger] decode.ensures((v,), d) && r == match d {
                    Ok(t) => Ok::<T, GameError>(t),
                    Err(e) => Err::<T, GameError>(GameError::Serialization(e)),
                },
    {
        match decode(&self.value) {
            Ok(t) => Ok(t),
            Err(e) => Err(GameError::Serialization(e)),
        }
    }

    /// The wrapped JSON value.
    #[must_use]
    pub fn as_value(&self) -> (r: &Json)
        ensures
            r@ == self@,
    {
        &self.value
    }

    /// Unwraps the JSON value.
    #[must_use]
    pub fn into_value(self) -> (r: Json)
        ensures
            r@ == self@,
    {
        self.value
    }
}

impl Clone for Action {
    fn clone(&self) -> (r: Self)
        ensures
            r@ == self@,
    {
        Action { value: self.value.clone() }
    }
}

/// What one party may observe of a game.
#[derive(Debug, PartialEq, Eq)]
pub struct PlayerView {
    value: Json,
}

impl PlayerView {
    /// The JSON value in the payload.
    pub closed spec fn view(self) -> JsonView {
        self.value@
    }

    /// Wraps a JSON value.
    #[must_use]
    pub fn new(value: Json) -> (r: Self)
        ensures
            r@ == value@,
    {
        PlayerView { value }
    }

    /// Wraps the JSON form of a typed value, or reports why it has none.
    pub fn from_typed(encoded: Result<Json, String>) -> (r: Result<Self, GameError>)
        ensures
            match encoded {
                Ok(v) => r is Ok && r->Ok_0@ == v@,
                Err(e) => r == Err::<PlayerView, GameError>(GameError::Serialization(e)),
            },
    {
        match encoded {
            Ok(value) => Ok(PlayerView { value }),
            Err(e) => Err(GameError::Serialization(e)),
        }
    }

    /// Recovers a typed value with `decode`, or reports why the payload has not
    /// its shape.
    pub fn to_typed<T, F: Fn(&Json) -> Result<T, String>>(&self, decode: F) -> (r: Result<
        T,
        GameError,
    >)
        requires
            forall|v: &Json| v@ == self@ ==> #[trigger] decode.requires((v,)),
        ensures
            exists|v: &Json, d: Result<T, String>|
                v@ == self@ && #[trigger] decode.ensures((v,), d) && r == match d {
                    Ok(t) => Ok::<T, GameError>(t),
                    Err(e) => Err::<T, GameError>(GameError::Serialization(e)),
                },
    {
        match decode(&self.value) {
            Ok(t) => Ok(t),
            Err(e) => Err(GameError::Serialization(e)),
        }
    }

    /// The wrapped JSON value.
    #[must_use]
    pub fn as_value(&self) -> (r: &Json)
        ensures
            r@ == self@,
    {
        &self.value
    }

    /// Unwraps the JSON value.
    #[must_use]
    pub fn into_value(self) -> (r: Json)
        ensures
            r@ == self@,
    {
        self.value
    }
}

impl Clone for PlayerView {
    fn clone(&self) -> (r: Self)
        ensures
            r@ == self@,
    {
        PlayerView { value: self.value.clone() }
    }
}

/// Something that happened and is broadcast to observers.
#[derive(Debug, PartialEq, Eq)]
pub struct Event {
    value: Json,
}

impl Event {
    /// The JSON value in the payload.
    pub closed spec fn view(self) -> JsonView {
        self.value@
    }

    /// Wraps a JSON value.
    #[must_use]
    pub fn new(value: Json) -> (r: Self)
        ensures
            r@ == value@,
    {
        Event { value }
    }

    /// Wraps the JSON form of a typed value, or reports why it has none.
    pub fn from_typed(encoded: Result<Json, String>) -> (r: Result<Self, GameError>)
        ensures
            match encoded {
                Ok(v) => r is Ok && r->Ok_0@ == v@,
                Err(e) => r == Err::<Event, GameError>(GameError::Serialization(e)),
            },
    {
        match encoded {
            Ok(value) => Ok(Event { value }),
            Err(e) => Err(GameError::Serialization(e)),
        }
    }

    /// Recovers a typed value with `decode`, or reports why the payload has not
    /// its shape.
    pub fn to_typed<T, F: Fn(&Json) -> Result<T, String>>(&self, decode: F) -> (r: Result<
        T,
        GameError,
    >)
        requires
            forall|v: &Json| v@ == self@ ==> #[trigger] decode.requires((v,)),
        ensures
            exists|v: &Json, d: Result<T, String>|
                v@ == self@ && #[trigger] decode.ensures((v,), d) && r == match d {
                    Ok(t) => Ok::<T, GameError>(t),
                    Err(e) => Err::<T, GameError>(GameError::Serialization(e)),
                },
    {
        match decode(&self.value) {
            Ok(t) => Ok(t),
            Err(e) => Err(GameError::Serialization(e)),
        }
    }

    /// The wrapped JSON value.
    #[must_use]
    pub fn as_value(&self) -> (r: &Json)
        ensures
            r@ == self@,
    {
        &self.value
    }

    /// Unwraps the JSON value.
    #[must_use]
    pub fn into_value(self) -> (r: Json)
        ensures
            r@ == self@,
    {
        self.value
    }
}

impl Clone for Event {
    fn clone(&self) -> (r: Self)
        ensures
            r@ == self@,
    {
        Event { value: self.value.clone() }
    }
}

/// The JSON values of a list of events.
pub open spec fn events_view(events: Seq<Event>) -> Seq<JsonView> {
    Seq::new(events.len(), |i: int| events[i]@)
}

/// The JSON values of a list of actions.
pub open spec fn actions_view(actions: Seq<Action>) -> Seq<JsonView> {
    Seq::new(actions.len(), |i: int| actions[i]@)
}

/// A copy of a list of events.
pub fn clone_events(events: &Vec<Event>) -> (r: Vec<Event>)
    ensures
        events_view(r@) == events_view(events@),
{
    let mut out: Vec<Event> = Vec::new();
    let mut i: usize = 0;
    while i < events.len()
        invariant
            i <= events@.len(),
            out@.len() == i,
            forall|j: int| 0 <= j < i ==> (#[trigger] out@[j])@ == events@[j]@,
        decreases events@.len() - i,
    {
        out.push(events[i].clone());
        i = i + 1;
    }
    assert(events_view(out@) =~= events_view(events@));
    out
}

/// Payloads hold the value they were made of and hand it out again, or report why there
/// is none.
pub proof fn payloads_hold_their_value(
    value: Json,
    encoded: Result<Json, String>,
    action: Action,
    view: PlayerView,
    event: Event,
    from_action: &Json,
    from_view: &Json,
    from_event: &Json,
    out_of_action: Json,
    out_of_view: Json,
    out_of_event: Json,
    typed_action: Result<Action, GameError>,
    typed_view: Result<PlayerView, GameError>,
    typed_event: Result<Event, GameError>,
)
    requires
        call_ensures(Action::new, (value,), action),
        call_ensures(PlayerView::new, (value,), view),
        call_ensures(Event::new, (value,), event),
        call_ensures(Action::as_value, (&action,), from_action),
        call_ensures(PlayerView::as_value, (&view,), from_view),
        call_ensures(Event::as_value, (&event,), from_event),
        call_ensures(Action::into_value, (action,), out_of_action),
        call_ensures(PlayerView::into_value, (view,), out_of_view),
        call_ensures(Event::into_value, (event,), out_of_event),
        call_ensures(Action::from_typed, (encoded,), typed_action),
        call_ensures(PlayerView::from_typed, (encoded,), typed_view),
        call_ensures(Event::from_typed, (encoded,), typed_event),
    ensures
        from_action@ == value@ && from_view@ == value@ && from_event@ == value@,
        out_of_action@ == value@ && out_of_view@ == value@ && out_of_event@ == value@,
        encoded matches Ok(v) ==> typed_action is Ok && typed_action->Ok_0@ == v@ && typed_view
            is Ok && typed_view->Ok_0@ == v@ && typed_event is Ok && typed_event->Ok_0@ == v@,
        encoded matches Err(e) ==> typed_action == Err::<Action, GameError>(
            GameError::Serialization(e),
        ) && typed_view == Err::<PlayerView, GameError>(GameError::Serialization(e)) && typed_event
            == Err::<Event, GameError>(GameError::Serialization(e)),
{
}

} // verus!
