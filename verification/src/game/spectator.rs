//! The frames that spectators on any node receive.
//!
//! A frame carries the session's spectator view, never a player's view, so a
//! variant with hidden information leaks nothing to a watcher.

use vstd::prelude::*;

use crate::domain::clock::{Clock, ClockView};
use crate::domain::ids;
use crate::domain::ids::GameId;
use crate::game::event;
use crate::text;
use crate::variant::json;
use crate::variant::json::{Json, JsonView};
use crate::variant::payload::PlayerView;
use crate::variant::status::GameStatus;

verus! {

/// The text of the topic on which a game's frames are published.
pub open spec fn topic_text(game_id: GameId) -> Seq<char> {
    "game:"@ + ids::hyphenated(game_id.0) + ":spectator"@
}

/// The topic on which a game's frames are published.
#[must_use]
pub fn spectator_topic(game_id: GameId) -> (r: String)
    ensures
        r@ == topic_text(game_id),
{
    text::join3("game:", game_id.to_string().as_str(), ":spectator")
}

/// A subscriber of one game's topic receives that game alone: different games
/// have different topics.
pub proof fn topics_tell_games_apart(a: GameId, b: GameId)
    ensures
        topic_text(a) == topic_text(b) <==> a == b,
{
    reveal_strlit("game:");
    if topic_text(a) == topic_text(b) {
        let x = topic_text(a);
        let y = topic_text(b);
        assert(ids::hyphenated(a.0).len() == 36 && ids::hyphenated(b.0).len() == 36);
        assert(ids::hyphenated(a.0) =~= x.subrange(5, 41));
        assert(ids::hyphenated(b.0) =~= y.subrange(5, 41));
        ids::hyphenated_injective(a.0, b.0);
    }
}

/// A full rendering of a game for spectators after an action. A watcher who
/// misses a frame catches up with the next one.
#[derive(Debug, PartialEq, Eq)]
pub struct SpectatorFrame {
    /// What spectators may observe.
    pub view: PlayerView,
    /// The status after the action.
    pub status: GameStatus,
    /// Both clocks after the action; `None` when the game tracks no time.
    pub clock: Option<Clock>,
    /// The number of half-moves played so far.
    pub ply: u32,
}

/// The mathematical model of a [`SpectatorFrame`].
pub struct FrameView {
    /// What spectators may observe.
    pub view: JsonView,
    /// The status after the action.
    pub status: GameStatus,
    /// Both clocks after the action.
    pub clock: Option<ClockView>,
    /// The number of half-moves played so far.
    pub ply: u32,
}

impl FrameView {
    /// The JSON object of the frame; the clock is left out when there is none.
    pub open spec fn json(self) -> Option<JsonView> {
        let head = seq![("view"@, self.view), ("status"@, self.status.json())];
        let ply = ("ply"@, JsonView::Number(text::decimal_digits(self.ply as nat)));
        match self.clock {
            None => Some(JsonView::Object(head.push(ply))),
            Some(clock) => match clock.json() {
                Some(c) => Some(JsonView::Object(head.push(("clock"@, c)).push(ply))),
                None => None,
            },
        }
    }

    /// Whether the instants in the frame can be written.
    pub open spec fn writable(self) -> bool {
        self.clock matches Some(clock) ==> clock.writable()
    }
}

/// Why a frame cannot be written.
#[derive(Debug, Clone, Copy, PartialEq, Eq, Structural)]
pub enum FrameError {
    /// The turn began before the year 0, which RFC 3339 cannot write.
    InstantOutOfRange,
}

impl FrameError {
    /// The text shown for the error.
    pub open spec fn message(self) -> Seq<char> {
        "the instant has no RFC 3339 form"@
    }

    /// Renders the error.
    pub fn to_string(&self) -> (r: String)
        ensures
            r@ == self.message(),
    {
        "the instant has no RFC 3339 form".to_owned()
    }
}

impl SpectatorFrame {
    /// The model of the frame.
    pub open spec fn view(self) -> FrameView {
        FrameView {
            view: self.view@,
            status: self.status,
            clock: event::clock_view(self.clock),
            ply: self.ply,
        }
    }

    /// Builds a frame from its parts.
    #[must_use]
    pub fn new(view: PlayerView, status: GameStatus, clock: Option<Clock>, ply: u32) -> (r: Self)
        ensures
            r == (SpectatorFrame { view, status, clock, ply }),
    {
        SpectatorFrame { view, status, clock, ply }
    }

    /// The JSON object of the frame, or `None` where the turn began before the year
    /// 0.
    pub fn to_json(&self) -> (r: Option<Json>)
        ensures
            match r {
                Some(j) => self@.json() == Some(j@),
                None => self@.json() is None,
            },
            r is Some <==> self@.writable(),
    {
        let mut entries: Vec<(String, Json)> = Vec::new();
        entries.push(("view".to_owned(), self.view.as_value().clone()));
        entries.push(("status".to_owned(), self.status.to_json()));
        if let Some(clock) = &self.clock {
            match clock.to_json() {
                Some(c) => entries.push(("clock".to_owned(), c)),
                None => return None,
            }
        }
        entries.push(("ply".to_owned(), Json::Number(text::decimal(self.ply as u64))));
        proof {
            json::view_of_object(entries);
            assert(self@.json() is Some);
            assert(json::entries_view(entries@) =~= self@.json()->0->Object_0);
        }
        Some(Json::Object(entries))
    }

    /// The bytes of the frame on the bus: its JSON text. An instant before the year
    /// 0 cannot be written.
    pub fn to_bytes(&self) -> (r: Result<Vec<u8>, FrameError>)
        ensures
            match r {
                Ok(b) => self@.json() is Some && b@ == vstd::utf8::encode_utf8(
                    self@.json()->0.text(),
                ),
                Err(e) => e == FrameError::InstantOutOfRange,
            },
            r is Ok <==> self@.writable(),
    {
        match self.to_json() {
            Some(j) => {
                let text = j.to_text();
                Ok(vstd::slice::slice_to_vec(text.as_str().as_bytes()))
            },
            None => Err(FrameError::InstantOutOfRange),
        }
    }
}

/// A frame tells nothing of the clock exactly when the game tracks no time.
pub proof fn the_clock_is_left_out_when_absent(frame: FrameView)
    requires
        frame.json() is Some,
    ensures
        frame.json()->0.get("clock"@) is None <==> frame.clock is None,
{
    reveal_strlit("view");
    reveal_strlit("status");
    reveal_strlit("clock");
    reveal_strlit("ply");
    reveal_with_fuel(json::value_under, 5);
    let entries = frame.json()->0->Object_0;
    assert("view"@.len() == 4 && "status"@.len() == 6 && "clock"@.len() == 5 && "ply"@.len() == 3);
    assert(entries.drop_first()[0] == entries[1]);
    assert(entries.drop_first().drop_first()[0] == entries[2]);
}

impl Clone for SpectatorFrame {
    fn clone(&self) -> (r: Self)
        ensures
            r@ == self@,
    {
        SpectatorFrame {
            view: self.view.clone(),
            status: self.status.clone(),
            clock: self.clock,
            ply: self.ply,
        }
    }
}

/// What is written of a frame holds the public view, the status and the count, and the
/// clocks when the game tracks time; what is published is the text of that.
pub proof fn a_frame_is_written_in_full(
    frame: SpectatorFrame,
    r: Option<Json>,
    bytes: Result<Vec<u8>, FrameError>,
    status: Json,
    clock: Option<Json>,
)
    requires
        call_ensures(SpectatorFrame::to_json, (&frame,), r),
        call_ensures(SpectatorFrame::to_bytes, (&frame,), bytes),
        call_ensures(GameStatus::to_json, (&frame.status,), status),
        frame.clock matches Some(c) ==> call_ensures(Clock::to_json, (&c,), clock),
    ensures
        frame.clock is None ==> r is Some,
        frame.clock is Some ==> (r is Some <==> clock is Some),
        bytes is Ok <==> r is Some,
        r matches Some(j) ==> {
            &&& j@.get("view"@) == Some(frame.view@)
            &&& j@.get("status"@) == Some(status@)
            &&& exists|digits: Seq<char>|
                j@.get("ply"@) == Some(JsonView::Number(digits)) && #[trigger] text::value_of(digits)
                    == frame.ply
            &&& frame.clock is None ==> j@.get("clock"@) is None
            &&& frame.clock is Some ==> j@.get("clock"@) == Some(clock->0@)
            &&& bytes->Ok_0@ == vstd::utf8::encode_utf8(j@.text())
        },
{
    reveal_strlit("view");
    reveal_strlit("status");
    reveal_strlit("clock");
    reveal_strlit("ply");
    assert("view"@.len() == 4 && "status"@.len() == 6 && "clock"@.len() == 5 && "ply"@.len() == 3);
    if r is Some {
        reveal_with_fuel(json::value_under, 5);
        let entries = r->0@->Object_0;
        assert(entries.drop_first()[0] == entries[1]);
        assert(entries.drop_first().drop_first()[0] == entries[2]);
        if frame.clock is Some {
            assert(entries.drop_first().drop_first().drop_first()[0] == entries[3]);
        }
        let digits = text::decimal_digits(frame.ply as nat);
        text::digits_have_their_value(frame.ply as nat);
        assert(r->0@.get("ply"@) == Some(JsonView::Number(digits)));
        assert(text::value_of(digits) == frame.ply);
    }
}

/// A frame holds what it was made of.
pub proof fn a_frame_holds_what_it_was_made_of(
    view: PlayerView,
    status: GameStatus,
    clock: Option<Clock>,
    ply: u32,
    frame: SpectatorFrame,
)
    requires
        call_ensures(SpectatorFrame::new, (view, status, clock, ply), frame),
    ensures
        frame.view@ == view@ && frame.status == status && frame.clock == clock && frame.ply == ply,
{
}

/// The topic of a game shows the game's identifier between fixed words.
pub proof fn a_topic_shows_its_game(game_id: GameId, topic: String, id: String)
    requires
        call_ensures(spectator_topic, (game_id,), topic),
        call_ensures(GameId::to_string, (&game_id,), id),
    ensures
        topic@ == "game:"@ + id@ + ":spectator"@,
{
}

} // verus!
