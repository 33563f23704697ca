//! Failures shared by every variant.

use vstd::prelude::*;

use crate::text;

verus! {

/// An error of the core machinery or of a variant.
#[derive(Debug, PartialEq, Eq)]
pub enum GameError {
    /// No variant is registered under the identifier.
    UnknownVariant(String),
    /// A player acted out of turn.
    NotYourTurn,
    /// The action is well formed but not legal in the position.
    IllegalAction,
    /// The game is already over.
    Finished,
    /// The payload is no action of the variant.
    InvalidActionPayload(String),
    /// A payload could not be encoded or decoded.
    Serialization(String),
    /// A failure of the variant that fits no other case.
    Other(String),
}

impl GameError {
    /// The text shown for the error.
    pub open spec fn message(self) -> Seq<char> {
        match self {
            GameError::UnknownVariant(s) => "unknown variant: "@ + s@,
            GameError::NotYourTurn => "it is not your turn to act"@,
            GameError::IllegalAction => "illegal action"@,
            GameError::Finished => "the game is already finished"@,
            GameError::InvalidActionPayload(s) => "invalid action payload: "@ + s@,
            GameError::Serialization(s) => "serialization error: "@ + s@,
            GameError::Other(s) => s@,
        }
    }

    /// Renders the error.
    pub fn to_string(&self) -> (r: String)
        ensures
            r@ == self.message(),
    {
        match self {
            GameError::UnknownVariant(s) => text::join2("unknown variant: ", s.as_str()),
            GameError::NotYourTurn => "it is not your turn to act".to_owned(),
            GameError::IllegalAction => "illegal action".to_owned(),
            GameError::Finished => "the game is already finished".to_owned(),
            GameError::InvalidActionPayload(s) => text::join2(
                "invalid action payload: ",
                s.as_str(),
            ),
            GameError::Serialization(s) => text::join2("serialization error: ", s.as_str()),
            GameError::Other(s) => s.clone(),
        }
    }
}

impl Clone for GameError {
    fn clone(&self) -> (r: Self)
        ensures
            r == *self,
    {
        match self {
            GameError::UnknownVariant(s) => GameError::UnknownVariant(s.clone()),
            GameError::NotYourTurn => GameError::NotYourTurn,
            GameError::IllegalAction => GameError::IllegalAction,
            GameError::Finished => GameError::Finished,
            GameError::InvalidActionPayload(s) => GameError::InvalidActionPayload(s.clone()),
            GameError::Serialization(s) => GameError::Serialization(s.clone()),
            GameError::Other(s) => GameError::Other(s.clone()),
        }
    }
}

/// An error that has a cause tells the whole of it.
pub proof fn game_errors_tell_their_cause(e: GameError, shown: String)
    requires
        call_ensures(GameError::to_string, (&e,), shown),
    ensures
        e matches GameError::UnknownVariant(s) ==> text::ends_in(shown@, s@),
        e matches GameError::InvalidActionPayload(s) ==> text::ends_in(shown@, s@),
        e matches GameError::Serialization(s) ==> text::ends_in(shown@, s@),
        e matches GameError::Other(s) ==> shown@ == s@,
{
    reveal_strlit("unknown variant: ");
    reveal_strlit("invalid action payload: ");
    reveal_strlit("serialization error: ");
    match e {
        GameError::UnknownVariant(s) => {
            text::what_comes_last_ends_the_text("unknown variant: "@, s@);
        },
        GameError::InvalidActionPayload(s) => {
            text::what_comes_last_ends_the_text("invalid action payload: "@, s@);
        },
        GameError::Serialization(s) => {
            text::what_comes_last_ends_the_text("serialization error: "@, s@);
        },
        _ => {},
    }
}

} // verus!
