//! A snapshot of both players' remaining time.

use vstd::prelude::*;

use crate::text;
use crate::time;
use crate::time::{Duration, Timestamp, YEAR_ZERO_NANOS};
use crate::variant::json;
use crate::variant::json::{Json, JsonView};

verus! {

/// A point-in-time record of how much time each player has left.
///
/// `turn_started_at` is `Some` while a turn is in progress and `None` when no
/// turn has started yet or the game has ended. The record does not tick: the
/// live clock is [`ClockEngine`](crate::game::clock::ClockEngine).
#[derive(Debug, Clone, Copy, PartialEq, Eq, Structural)]
pub struct Clock {
    /// Time remaining on White's clock.
    pub white_remaining: Duration,
    /// Time remaining on Black's clock.
    pub black_remaining: Duration,
    /// The instant at which the current turn began, if known.
    pub turn_started_at: Option<Timestamp>,
}

/// The mathematical model of a [`Clock`], in nanoseconds.
pub struct ClockView {
    /// What White has left.
    pub white: nat,
    /// What Black has left.
    pub black: nat,
    /// When the current turn began, if known.
    pub started: Option<int>,
}

impl ClockView {
    /// The JSON object of the clock: whole seconds, and when the turn began if it
    /// is known. There is none where the turn began before the year 0.
    pub open spec fn json(self) -> Option<JsonView> {
        let head = seq![
            (
                "white_remaining"@,
                JsonView::Number(text::decimal_digits(self.white / 1_000_000_000)),
            ),
            (
                "black_remaining"@,
                JsonView::Number(text::decimal_digits(self.black / 1_000_000_000)),
            ),
        ];
        match self.started {
            None => Some(JsonView::Object(head)),
            Some(at) => match time::rfc3339(at) {
                Some(t) => Some(JsonView::Object(head.push(("turn_started_at"@, JsonView::Str(t))))),
                None => None,
            },
        }
    }

    /// Whether the instant at which the turn began can be written.
    pub open spec fn writable(self) -> bool {
        self.started matches Some(at) ==> at >= YEAR_ZERO_NANOS
    }
}

impl Clock {
    /// The model of the clock.
    pub open spec fn view(self) -> ClockView {
        ClockView {
            white: self.white_remaining@,
            black: self.black_remaining@,
            started: match self.turn_started_at {
                Some(at) => Some(at@),
                None => None,
            },
        }
    }

    /// The JSON object of the clock, or `None` where the turn began before the year
    /// 0.
    pub fn to_json(&self) -> (r: Option<Json>)
        ensures
            match r {
                Some(j) => self@.json() == Some(j@),
                None => self@.json() is None,
            },
            r is Some <==> self@.writable(),
    {
        let white: u64 = self.white_remaining.as_secs();
        let black: u64 = self.black_remaining.as_secs();
        let mut entries: Vec<(String, Json)> = Vec::new();
        entries.push(("white_remaining".to_owned(), Json::Number(text::decimal(white))));
        entries.push(("black_remaining".to_owned(), Json::Number(text::decimal(black))));
        if let Some(at) = self.turn_started_at {
            match at.to_rfc3339() {
                Some(t) => entries.push(("turn_started_at".to_owned(), Json::Str(t))),
                None => return None,
            }
        }
        proof {
            json::view_of_object(entries);
            assert(self@.json() is Some);
            assert(json::entries_view(entries@) =~= self@.json()->0->Object_0);
        }
        Some(Json::Object(entries))
    }

    /// Creates a clock with the same time for both players and no turn running.
    #[must_use]
    pub fn new(initial: Duration) -> (r: Self)
        ensures
            r == (Clock {
                white_remaining: initial,
                black_remaining: initial,
                turn_started_at: None,
            }),
    {
        Clock { white_remaining: initial, black_remaining: initial, turn_started_at: None }
    }

    /// Creates a clock from both remaining times and an optional turn start.
    #[must_use]
    pub fn with_times(
        white_remaining: Duration,
        black_remaining: Duration,
        turn_started_at: Option<Timestamp>,
    ) -> (r: Self)
        ensures
            r == (Clock { white_remaining, black_remaining, turn_started_at }),
    {
        Clock { white_remaining, black_remaining, turn_started_at }
    }

    /// The time White has left.
    #[must_use]
    pub fn white_remaining(&self) -> (r: Duration)
        ensures
            r == self.white_remaining,
    {
        self.white_remaining
    }

    /// The time Black has left.
    #[must_use]
    pub fn black_remaining(&self) -> (r: Duration)
        ensures
            r == self.black_remaining,
    {
        self.black_remaining
    }

    /// The instant at which the current turn began, if known.
    #[must_use]
    pub fn turn_started_at(&self) -> (r: Option<Timestamp>)
        ensures
            r == self.turn_started_at,
    {
        self.turn_started_at
    }
}

/// What is written of a clock are both sides' whole seconds and, while a turn runs, when
/// it began; a turn that is not running is left out.
pub proof fn a_clock_is_written_in_whole_seconds(clock: Clock, r: Option<Json>)
    requires
        call_ensures(Clock::to_json, (&clock,), r),
    ensures
        clock.turn_started_at is None ==> r is Some,
        r matches Some(j) ==> {
            &&& exists|w: Seq<char>|
                j@.get("white_remaining"@) == Some(JsonView::Number(w)) && #[trigger] text::value_of(
                    w,
                ) * 1_000_000_000 <= clock.white_remaining@ < (text::value_of(w) + 1)
                    * 1_000_000_000
            &&& exists|b: Seq<char>|
                j@.get("black_remaining"@) == Some(JsonView::Number(b)) && #[trigger] text::value_of(
                    b,
                ) * 1_000_000_000 <= clock.black_remaining@ < (text::value_of(b) + 1)
                    * 1_000_000_000
            &&& clock.turn_started_at is None ==> j@.get("turn_started_at"@) is None
            &&& clock.turn_started_at matches Some(at) ==> (time::rfc3339(at@) is Some && j@.get(
                "turn_started_at"@,
            ) == Some(JsonView::Str(time::rfc3339(at@)->0)))
        },
{
    reveal_strlit("white_remaining");
    reveal_strlit("black_remaining");
    reveal_strlit("turn_started_at");
    assert("white_remaining"@[0] != "black_remaining"@[0]);
    assert("white_remaining"@[0] != "turn_started_at"@[0]);
    assert("black_remaining"@[0] != "turn_started_at"@[0]);
    if r is Some {
        reveal_with_fuel(json::value_under, 4);
        let entries = r->0@->Object_0;
        assert(entries.drop_first()[0] == entries[1]);
        if clock.turn_started_at is Some {
            assert(entries.drop_first().drop_first()[0] == entries[2]);
        }
        let w = text::decimal_digits(clock.white_remaining@ / 1_000_000_000);
        let b = text::decimal_digits(clock.black_remaining@ / 1_000_000_000);
        text::digits_have_their_value(clock.white_remaining@ / 1_000_000_000);
        text::digits_have_their_value(clock.black_remaining@ / 1_000_000_000);
        assert(r->0@.get("white_remaining"@) == Some(JsonView::Number(w)));
        assert(r->0@.get("black_remaining"@) == Some(JsonView::Number(b)));
        assert(text::value_of(w) == clock.white_remaining@ / 1_000_000_000);
        assert(text::value_of(b) == clock.black_remaining@ / 1_000_000_000);
    }
}

/// A clock record holds the times it was made with.
pub proof fn a_clock_record_holds_its_times(
    white: Duration,
    black: Duration,
    at: Option<Timestamp>,
    clock: Clock,
    full: Clock,
)
    requires
        call_ensures(Clock::with_times, (white, black, at), clock),
        call_ensures(Clock::new, (white,), full),
    ensures
        clock.white_remaining == white && clock.black_remaining == black && clock.turn_started_at
            == at,
        full.white_remaining == white && full.black_remaining == white && full.turn_started_at
            is None,
{
}

} // verus!
