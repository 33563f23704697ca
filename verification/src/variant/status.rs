//! Outcomes and the lifecycle of a game.

use vstd::prelude::*;

use crate::variant::color::Color;
use crate::variant::json;
use crate::variant::json::{Json, JsonView};
use crate::variant::payload;
use crate::variant::payload::Event;

verus! {

/// Why a game ended.
#[derive(Debug, PartialEq, Eq)]
pub enum EndReason {
    /// The losing king is in check and cannot escape.
    Checkmate,
    /// The side to move has no legal move and is not in check.
    Stalemate,
    /// A player resigned.
    Resignation,
    /// A player ran out of time.
    Timeout,
    /// The players agreed to a draw.
    DrawAgreement,
    /// Neither side can deliver mate.
    InsufficientMaterial,
    /// The fifty-move rule was invoked.
    FiftyMoveRule,
    /// A position repeated often enough.
    Repetition,
    /// A reason of the variant's own.
    Other(String),
}

impl EndReason {
    /// The name of the reason.
    pub open spec fn name(self) -> Seq<char> {
        match self {
            EndReason::Checkmate => "checkmate"@,
            EndReason::Stalemate => "stalemate"@,
            EndReason::Resignation => "resignation"@,
            EndReason::Timeout => "timeout"@,
            EndReason::DrawAgreement => "draw_agreement"@,
            EndReason::InsufficientMaterial => "insufficient_material"@,
            EndReason::FiftyMoveRule => "fifty_move_rule"@,
            EndReason::Repetition => "repetition"@,
            EndReason::Other(_) => "other"@,
        }
    }

    /// The JSON value of the reason: its name, with the text of a reason of the
    /// variant's own.
    pub open spec fn json(self) -> JsonView {
        match self {
            EndReason::Other(s) => JsonView::Object(seq![(self.name(), JsonView::Str(s@))]),
            _ => JsonView::Str(self.name()),
        }
    }

    /// The JSON value of the reason.
    pub fn to_json(&self) -> (r: Json)
        ensures
            r@ == self.json(),
    {
        let name = match self {
            EndReason::Checkmate => "checkmate",
            EndReason::Stalemate => "stalemate",
            EndReason::Resignation => "resignation",
            EndReason::Timeout => "timeout",
            EndReason::DrawAgreement => "draw_agreement",
            EndReason::InsufficientMaterial => "insufficient_material",
            EndReason::FiftyMoveRule => "fifty_move_rule",
            EndReason::Repetition => "repetition",
            EndReason::Other(_) => "other",
        };
        match self {
            EndReason::Other(s) => json::tagged(name, Json::Str(s.clone())),
            _ => Json::Str(name.to_owned()),
        }
    }
}

impl Clone for EndReason {
    fn clone(&self) -> (r: Self)
        ensures
            r == *self,
    {
        match self {
            EndReason::Checkmate => EndReason::Checkmate,
            EndReason::Stalemate => EndReason::Stalemate,
            EndReason::Resignation => EndReason::Resignation,
            EndReason::Timeout => EndReason::Timeout,
            EndReason::DrawAgreement => EndReason::DrawAgreement,
            EndReason::InsufficientMaterial => EndReason::InsufficientMaterial,
            EndReason::FiftyMoveRule => EndReason::FiftyMoveRule,
            EndReason::Repetition => EndReason::Repetition,
            EndReason::Other(s) => EndReason::Other(s.clone()),
        }
    }
}

/// The result of a finished game; no winner means a draw.
#[derive(Debug, PartialEq, Eq)]
pub struct Outcome {
    /// The winning side, or `None` for a draw.
    pub winner: Option<Color>,
    /// Why the game ended.
    pub reason: EndReason,
}

impl Outcome {
    /// The JSON object of the outcome; a draw has `null` for a winner.
    pub open spec fn json(self) -> JsonView {
        JsonView::Object(
            seq![
                (
                    "winner"@,
                    match self.winner {
                        Some(side) => JsonView::Str(side.name()),
                        None => JsonView::Null,
                    },
                ),
                ("reason"@, self.reason.json()),
            ],
        )
    }

    /// The JSON object of the outcome.
    pub fn to_json(&self) -> (r: Json)
        ensures
            r@ == self.json(),
    {
        let winner = match self.winner {
            Some(side) => Json::Str(side.to_string()),
            None => Json::Null,
        };
        let mut entries: Vec<(String, Json)> = Vec::new();
        entries.push(("winner".to_owned(), winner));
        entries.push(("reason".to_owned(), self.reason.to_json()));
        proof {
            json::view_of_object(entries);
            assert(json::entries_view(entries@) =~= self.json()->Object_0);
        }
        Json::Object(entries)
    }

    /// An outcome won by `winner`.
    #[must_use]
    pub fn win(winner: Color, reason: EndReason) -> (r: Self)
        ensures
            r == (Outcome { winner: Some(winner), reason }),
    {
        Outcome { winner: Some(winner), reason }
    }

    /// A drawn outcome.
    #[must_use]
    pub fn draw(reason: EndReason) -> (r: Self)
        ensures
            r == (Outcome { winner: None, reason }),
    {
        Outcome { winner: None, reason }
    }
}

impl Clone for Outcome {
    fn clone(&self) -> (r: Self)
        ensures
            r == *self,
    {
        Outcome { winner: self.winner, reason: self.reason.clone() }
    }
}

/// Where a game is in its life.
#[derive(Debug, PartialEq, Eq)]
pub enum GameStatus {
    /// The game is in progress.
    Ongoing,
    /// The game has ended.
    Finished(Outcome),
}

impl GameStatus {
    /// The JSON value of the status: a name, with the outcome of a finished game.
    pub open spec fn json(self) -> JsonView {
        match self {
            GameStatus::Ongoing => JsonView::Str("ongoing"@),
            GameStatus::Finished(o) => JsonView::Object(seq![("finished"@, o.json())]),
        }
    }

    /// The JSON value of the status.
    pub fn to_json(&self) -> (r: Json)
        ensures
            r@ == self.json(),
    {
        match self {
            GameStatus::Ongoing => Json::Str("ongoing".to_owned()),
            GameStatus::Finished(o) => json::tagged("finished", o.to_json()),
        }
    }

    /// Whether the game has ended.
    #[must_use]
    pub fn is_finished(&self) -> (r: bool)
        ensures
            r == (self is Finished),
    {
        matches!(self, GameStatus::Finished(_))
    }
}

impl Clone for GameStatus {
    fn clone(&self) -> (r: Self)
        ensures
            r == *self,
    {
        match self {
            GameStatus::Ongoing => GameStatus::Ongoing,
            GameStatus::Finished(o) => GameStatus::Finished(o.clone()),
        }
    }
}

/// The effect of an accepted action: the status after it and what happened.
#[derive(Debug, PartialEq, Eq)]
pub struct ActionEffect {
    /// The status after the action.
    pub status: GameStatus,
    /// What happened, for broadcasting.
    pub events: Vec<Event>,
}

/// The mathematical model of an [`ActionEffect`].
pub struct EffectView {
    /// The status after the action.
    pub status: GameStatus,
    /// What happened.
    pub events: Seq<JsonView>,
}

impl ActionEffect {
    /// The model of the effect.
    pub open spec fn view(self) -> EffectView {
        EffectView { status: self.status, events: payload::events_view(self.events@) }
    }
}

impl Clone for ActionEffect {
    fn clone(&self) -> (r: Self)
        ensures
            r@ == self@,
    {
        ActionEffect {
            status: self.status.clone(),
            events: payload::clone_events(&self.events),
        }
    }
}

/// An outcome says who won: the named side with the named reason, or nobody in a draw.
pub proof fn outcomes_say_who_won(winner: Color, reason: EndReason, won: Outcome, drawn: Outcome)
    requires
        call_ensures(Outcome::win, (winner, reason), won),
        call_ensures(Outcome::draw, (reason,), drawn),
    ensures
        won.winner == Some(winner) && won.reason == reason,
        drawn.winner is None && drawn.reason == reason,
{
}

/// A game is finished exactly when it has an outcome.
pub proof fn finished_games_have_an_outcome(status: GameStatus, over: bool)
    requires
        call_ensures(GameStatus::is_finished, (&status,), over),
    ensures
        over <==> status != GameStatus::Ongoing,
{
}

/// What is written of a reason tells it from every other reason.
pub proof fn reasons_are_told_apart(a: EndReason, b: EndReason, json_a: Json, json_b: Json)
    requires
        call_ensures(EndReason::to_json, (&a,), json_a),
        call_ensures(EndReason::to_json, (&b,), json_b),
    ensures
        json_a@ == json_b@ <==> (match (a, b) {
            (EndReason::Other(s), EndReason::Other(t)) => s@ == t@,
            _ => a == b,
        }),
{
    reveal_strlit("checkmate");
    reveal_strlit("stalemate");
    reveal_strlit("resignation");
    reveal_strlit("timeout");
    reveal_strlit("draw_agreement");
    reveal_strlit("insufficient_material");
    reveal_strlit("fifty_move_rule");
    reveal_strlit("repetition");
    reveal_strlit("other");
    assert("checkmate"@.len() == 9 && "stalemate"@.len() == 9 && "resignation"@.len() == 11
        && "timeout"@.len() == 7 && "draw_agreement"@.len() == 14 && "insufficient_material"@.len()
        == 21 && "fifty_move_rule"@.len() == 15 && "repetition"@.len() == 10 && "other"@.len()
        == 5);
    assert("checkmate"@[0] != "stalemate"@[0]);
    match (a, b) {
        (EndReason::Other(s), EndReason::Other(t)) => {
            let x = json_a@->Object_0;
            let y = json_b@->Object_0;
            assert(x[0].1 == JsonView::Str(s@) && y[0].1 == JsonView::Str(t@));
            if s@ == t@ {
                assert(x =~= y);
            }
        },
        _ => {},
    }
}

/// What is written of an outcome names its winner, or nobody, and its reason; what is
/// written of a status tells an ongoing game from a finished one and names its outcome.
pub proof fn outcomes_are_written_in_full(
    outcome: Outcome,
    json: Json,
    reason: Json,
    ongoing: Json,
    finished: Json,
)
    requires
        call_ensures(Outcome::to_json, (&outcome,), json),
        call_ensures(EndReason::to_json, (&outcome.reason,), reason),
        call_ensures(GameStatus::to_json, (&GameStatus::Ongoing,), ongoing),
        call_ensures(GameStatus::to_json, (&GameStatus::Finished(outcome),), finished),
    ensures
        json@.get("winner"@) == Some(
            match outcome.winner {
                Some(Color::White) => JsonView::Str("white"@),
                Some(Color::Black) => JsonView::Str("black"@),
                None => JsonView::Null,
            },
        ),
        json@.get("reason"@) == Some(reason@),
        ongoing@ == JsonView::Str("ongoing"@),
        finished@.get("finished"@) == Some(json@),
{
    reveal_strlit("winner");
    reveal_strlit("reason");
    assert("winner"@[0] != "reason"@[0]);
    reveal_with_fuel(json::value_under, 3);
    let entries = json@->Object_0;
    assert(entries.drop_first()[0] == entries[1]);
}

} // verus!
