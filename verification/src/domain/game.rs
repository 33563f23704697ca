//! The stored record of a game.

use vstd::prelude::*;

use crate::domain::ids;
use crate::domain::ids::{GameId, UserId};
use crate::domain::time_control::TimeControl;
use crate::time::Timestamp;
use crate::variant::color::Color;
use crate::variant::registry::VariantOptions;
use crate::variant::status::Outcome;

verus! {

/// Where a game record is in its life.
#[derive(Debug, Clone, Copy, PartialEq, Eq, Hash, Structural)]
pub enum GameLifecycle {
    /// The record exists; play has not started.
    Created,
    /// Play is in progress.
    Active,
    /// The game has ended.
    Finished,
}

/// A game as it is stored and served.
///
/// `variant_id` and `variant_options` recreate a fresh session, and the live
/// snapshot (`ply`, the clocks and `side_to_move`) tells the latest state
/// without a replay.
#[derive(Debug, PartialEq, Eq)]
pub struct Game {
    /// Stable identifier of the game.
    pub id: GameId,
    /// The variant played.
    pub variant_id: String,
    /// The options the variant was created with.
    pub variant_options: VariantOptions,
    /// The user playing White.
    pub white: UserId,
    /// The user playing Black.
    pub black: UserId,
    /// Where the record is in its life.
    pub lifecycle: GameLifecycle,
    /// How the game ended, once it has.
    pub outcome: Option<Outcome>,
    /// The timing rules.
    pub time_control: TimeControl,
    /// The number of half-moves played.
    pub ply: u32,
    /// White's clock in milliseconds, when the game is timed and a snapshot was
    /// taken.
    pub clock_white_ms: Option<u64>,
    /// Black's clock in milliseconds, when the game is timed and a snapshot was
    /// taken.
    pub clock_black_ms: Option<u64>,
    /// Whose turn it is, once a snapshot was taken and while the game goes on.
    pub side_to_move: Option<Color>,
    /// When the record was created.
    pub created_at: Timestamp,
    /// When the record was last changed.
    pub updated_at: Timestamp,
}

impl Game {
    /// Creates a record under a fresh random identifier, with an empty snapshot.
    #[must_use]
    pub fn new(
        variant_id: String,
        variant_options: VariantOptions,
        white: UserId,
        black: UserId,
        time_control: TimeControl,
        now: Timestamp,
    ) -> (r: Self)
        ensures
            ids::is_random(r.id.0),
            r == (Game {
                id: r.id,
                variant_id,
                variant_options,
                white,
                black,
                lifecycle: GameLifecycle::Created,
                outcome: None,
                time_control,
                ply: 0,
                clock_white_ms: None,
                clock_black_ms: None,
                side_to_move: None,
                created_at: now,
                updated_at: now,
            }),
    {
        Game {
            id: GameId::new(),
            variant_id,
            variant_options,
            white,
            black,
            lifecycle: GameLifecycle::Created,
            outcome: None,
            time_control,
            ply: 0,
            clock_white_ms: None,
            clock_black_ms: None,
            side_to_move: None,
            created_at: now,
            updated_at: now,
        }
    }

    /// Records the latest state of the live game; the lifecycle and the outcome
    /// stay as they are.
    pub fn update_snapshot(
        &mut self,
        ply: u32,
        clock_white_ms: Option<u64>,
        clock_black_ms: Option<u64>,
        side_to_move: Option<Color>,
        now: Timestamp,
    )
        ensures
            *final(self) == (Game {
                ply,
                clock_white_ms,
                clock_black_ms,
                side_to_move,
                updated_at: now,
                ..*old(self)
            }),
    {
        self.ply = ply;
        self.clock_white_ms = clock_white_ms;
        self.clock_black_ms = clock_black_ms;
        self.side_to_move = side_to_move;
        self.updated_at = now;
    }

    /// Records the end of the game; nobody is to move any more. On a finished game
    /// it overwrites the outcome.
    pub fn finish(&mut self, outcome: Outcome, now: Timestamp)
        ensures
            *final(self) == (Game {
                lifecycle: GameLifecycle::Finished,
                outcome: Some(outcome),
                side_to_move: None,
                updated_at: now,
                ..*old(self)
            }),
    {
        self.lifecycle = GameLifecycle::Finished;
        self.outcome = Some(outcome);
        self.side_to_move = None;
        self.updated_at = now;
    }
}

impl Clone for Game {
    fn clone(&self) -> (r: Self)
        ensures
            r.variant_options@ == self.variant_options@,
            r == (Game { variant_options: r.variant_options, ..*self }),
    {
        Game {
            id: self.id,
            variant_id: self.variant_id.clone(),
            variant_options: self.variant_options.clone(),
            white: self.white,
            black: self.black,
            lifecycle: self.lifecycle,
            outcome: match &self.outcome {
                Some(o) => Some(o.clone()),
                None => None,
            },
            time_control: self.time_control,
            ply: self.ply,
            clock_white_ms: self.clock_white_ms,
            clock_black_ms: self.clock_black_ms,
            side_to_move: self.side_to_move,
            created_at: self.created_at,
            updated_at: self.updated_at,
        }
    }
}

/// A new record is of the game it was made for: nothing played, nobody to move yet, no
/// clocks and no outcome.
pub proof fn a_new_record_is_empty(
    variant_id: String,
    variant_options: VariantOptions,
    white: UserId,
    black: UserId,
    time_control: TimeControl,
    now: Timestamp,
    game: Game,
)
    requires
        call_ensures(
            Game::new,
            (variant_id, variant_options, white, black, time_control, now),
            game,
        ),
    ensures
        game.white == white && game.black == black,
        game.variant_id@ == variant_id@ && game.variant_options@ == variant_options@,
        game.time_control == time_control,
        game.lifecycle == GameLifecycle::Created && game.outcome is None,
        game.ply == 0 && game.side_to_move is None,
        game.clock_white_ms is None && game.clock_black_ms is None,
        game.created_at == now && game.updated_at == now,
{
}

/// A finished record has the outcome and nobody to move, and keeps the players, the
/// terms, the count and the clocks.
pub proof fn a_finished_record_has_its_outcome(game: &mut Game, outcome: Outcome, now: Timestamp)
    requires
        call_ensures(Game::finish, (game, outcome, now), ()),
    ensures
        final(game).lifecycle == GameLifecycle::Finished,
        final(game).outcome == Some(outcome),
        final(game).side_to_move is None,
        final(game).updated_at == now,
        final(game).id == old(game).id,
        final(game).white == old(game).white && final(game).black == old(game).black,
        final(game).variant_id == old(game).variant_id,
        final(game).variant_options == old(game).variant_options,
        final(game).time_control == old(game).time_control,
        final(game).ply == old(game).ply,
        final(game).clock_white_ms == old(game).clock_white_ms,
        final(game).clock_black_ms == old(game).clock_black_ms,
        final(game).created_at == old(game).created_at,
{
}

/// Bringing a record up to date changes the live state and nothing else: the game neither
/// begins nor ends by it.
pub proof fn an_update_changes_the_live_state_only(
    game: &mut Game,
    ply: u32,
    white_ms: Option<u64>,
    black_ms: Option<u64>,
    side: Option<Color>,
    now: Timestamp,
)
    requires
        call_ensures(Game::update_snapshot, (game, ply, white_ms, black_ms, side, now), ()),
    ensures
        final(game).ply == ply,
        final(game).clock_white_ms == white_ms && final(game).clock_black_ms == black_ms,
        final(game).side_to_move == side,
        final(game).updated_at == now,
        final(game).lifecycle == old(game).lifecycle && final(game).outcome == old(game).outcome,
        final(game).id == old(game).id,
        final(game).white == old(game).white && final(game).black == old(game).black,
        final(game).variant_id == old(game).variant_id,
        final(game).variant_options == old(game).variant_options,
        final(game).time_control == old(game).time_control,
        final(game).created_at == old(game).created_at,
{
}

} // verus!
