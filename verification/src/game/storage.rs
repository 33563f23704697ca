//! What the persistence layer reports back.

use vstd::prelude::*;

use crate::text;
use crate::variant::color::Color;
use crate::variant::json::JsonView;
use crate::variant::payload::Action;

verus! {

/// A failed repository operation.
#[derive(Debug, PartialEq, Eq)]
pub enum StorageError {
    /// The record does not exist.
    NotFound,
    /// The record clashes with one that exists.
    Conflict(String),
    /// The backing store failed.
    Backend(String),
}

impl StorageError {
    /// The text shown for the error.
    pub open spec fn message(self) -> Seq<char> {
        match self {
            StorageError::NotFound => "record not found"@,
            StorageError::Conflict(s) => "conflict: "@ + s@,
            StorageError::Backend(s) => "backend error: "@ + s@,
        }
    }

    /// Renders the error.
    pub fn to_string(&self) -> (r: String)
        ensures
            r@ == self.message(),
    {
        match self {
            StorageError::NotFound => "record not found".to_owned(),
            StorageError::Conflict(s) => text::join2("conflict: ", s.as_str()),
            StorageError::Backend(s) => text::join2("backend error: ", s.as_str()),
        }
    }
}

impl Clone for StorageError {
    fn clone(&self) -> (r: Self)
        ensures
            r == *self,
    {
        match self {
            StorageError::NotFound => StorageError::NotFound,
            StorageError::Conflict(s) => StorageError::Conflict(s.clone()),
            StorageError::Backend(s) => StorageError::Backend(s.clone()),
        }
    }
}

/// One accepted action in a game's append-only log.
#[derive(Debug, PartialEq, Eq)]
pub struct RecordedAction {
    /// The number of actions accepted before this one.
    pub ply: u32,
    /// Who acted.
    pub player: Color,
    /// What they did.
    pub action: Action,
    /// White's clock after the action in milliseconds, when the game is timed.
    pub clock_white_ms: Option<u64>,
    /// Black's clock after the action in milliseconds, when the game is timed.
    pub clock_black_ms: Option<u64>,
}

/// The mathematical model of a [`RecordedAction`].
pub struct RecordedView {
    /// The number of actions accepted before this one.
    pub ply: u32,
    /// Who acted.
    pub player: Color,
    /// What they did.
    pub action: JsonView,
    /// White's clock after the action in milliseconds.
    pub clock_white_ms: Option<u64>,
    /// Black's clock after the action in milliseconds.
    pub clock_black_ms: Option<u64>,
}

impl RecordedAction {
    /// The model of the record.
    pub open spec fn view(self) -> RecordedView {
        RecordedView {
            ply: self.ply,
            player: self.player,
            action: self.action@,
            clock_white_ms: self.clock_white_ms,
            clock_black_ms: self.clock_black_ms,
        }
    }
}

impl Clone for RecordedAction {
    fn clone(&self) -> (r: Self)
        ensures
            r@ == self@,
    {
        RecordedAction {
            ply: self.ply,
            player: self.player,
            action: self.action.clone(),
            clock_white_ms: self.clock_white_ms,
            clock_black_ms: self.clock_black_ms,
        }
    }
}

/// A failure of the store that has a cause tells the whole of it.
pub proof fn storage_errors_tell_their_cause(e: StorageError, shown: String)
    requires
        call_ensures(StorageError::to_string, (&e,), shown),
    ensures
        e matches StorageError::Conflict(s) ==> text::ends_in(shown@, s@),
        e matches StorageError::Backend(s) ==> text::ends_in(shown@, s@),
{
    reveal_strlit("conflict: ");
    reveal_strlit("backend error: ");
    match e {
        StorageError::Conflict(s) => {
            text::what_comes_last_ends_the_text("conflict: "@, s@);
        },
        StorageError::Backend(s) => {
            text::what_comes_last_ends_the_text("backend error: "@, s@);
        },
        _ => {},
    }
}

} // verus!
