//! Failures of a live game.

use vstd::prelude::*;

use crate::game::storage::StorageError;
use crate::text;
use crate::variant::error::GameError;

verus! {

/// Why an operation on a live game failed.
#[derive(Debug, PartialEq, Eq)]
pub enum GameSessionError {
    /// The game refused the operation.
    Game(GameError),
    /// The game went on, but could not be recorded.
    Storage(StorageError),
    /// The actor of the game has stopped.
    ActorUnavailable,
}

impl GameSessionError {
    /// The text shown for the error.
    pub open spec fn message(self) -> Seq<char> {
        match self {
            GameSessionError::Game(e) => "game error: "@ + e.message(),
            GameSessionError::Storage(e) => "storage error: "@ + e.message(),
            GameSessionError::ActorUnavailable => "game actor is unavailable (mailbox closed)"@,
        }
    }

    /// Renders the error.
    pub fn to_string(&self) -> (r: String)
        ensures
            r@ == self.message(),
    {
        match self {
            GameSessionError::Game(e) => text::join2("game error: ", e.to_string().as_str()),
            GameSessionError::Storage(e) => text::join2("storage error: ", e.to_string().as_str()),
            GameSessionError::ActorUnavailable => {
                "game actor is unavailable (mailbox closed)".to_owned()
            },
        }
    }
}

/// An error of a live game tells the whole of the error behind it.
pub proof fn session_errors_tell_their_cause(
    game: GameError,
    storage: StorageError,
    game_cause: String,
    storage_cause: String,
    from_game: String,
    from_storage: String,
)
    requires
        call_ensures(GameError::to_string, (&game,), game_cause),
        call_ensures(StorageError::to_string, (&storage,), storage_cause),
        call_ensures(GameSessionError::to_string, (&GameSessionError::Game(game),), from_game),
        call_ensures(
            GameSessionError::to_string,
            (&GameSessionError::Storage(storage),),
            from_storage,
        ),
    ensures
        text::ends_in(from_game@, game_cause@),
        text::ends_in(from_storage@, storage_cause@),
{
    reveal_strlit("game error: ");
    reveal_strlit("storage error: ");
    text::what_comes_last_ends_the_text("game error: "@, game_cause@);
    text::what_comes_last_ends_the_text("storage error: "@, storage_cause@);
}

} // verus!
