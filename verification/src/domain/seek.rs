//! Open invitations to play.

use vstd::prelude::*;

use crate::domain::ids;
use crate::domain::ids::{SeekId, UserId};
use crate::domain::time_control::TimeControl;
use crate::time::Timestamp;

verus! {

/// Which side a player wants to play.
#[derive(Debug, Clone, Copy, PartialEq, Eq, Hash, Structural)]
pub enum ColorPreference {
    /// The seeker wants the white pieces.
    White,
    /// The seeker wants the black pieces.
    Black,
    /// The seeker accepts either side.
    Random,
}

/// An open invitation in the matchmaking pool. A seek does not change once it
/// is made: it is consumed when it is matched or cancelled.
#[derive(Debug, PartialEq, Eq)]
pub struct Seek {
    /// Stable identifier of the seek.
    pub id: SeekId,
    /// The user who posted it.
    pub creator: UserId,
    /// The variant sought, such as `standard`.
    pub variant_id: String,
    /// The timing rules sought.
    pub time_control: TimeControl,
    /// The side sought.
    pub color_preference: ColorPreference,
    /// Whether the game is to count towards ratings.
    pub rated: bool,
    /// When the seek was posted.
    pub created_at: Timestamp,
}

/// What a stored seek that says nothing of `rated` counts as: rated.
pub fn default_rated() -> (r: bool)
    ensures
        r,
{
    true
}

impl Seek {
    /// Creates a seek under a fresh random identifier.
    #[must_use]
    pub fn new(
        creator: UserId,
        variant_id: String,
        time_control: TimeControl,
        color_preference: ColorPreference,
        rated: bool,
        created_at: Timestamp,
    ) -> (r: Self)
        ensures
            ids::is_random(r.id.0),
            r == (Seek {
                id: r.id,
                creator,
                variant_id,
                time_control,
                color_preference,
                rated,
                created_at,
            }),
    {
        Seek {
            id: SeekId::new(),
            creator,
            variant_id,
            time_control,
            color_preference,
            rated,
            created_at,
        }
    }
}

impl Clone for Seek {
    fn clone(&self) -> (r: Self)
        ensures
            r == *self,
    {
        Seek {
            id: self.id,
            creator: self.creator,
            variant_id: self.variant_id.clone(),
            time_control: self.time_control,
            color_preference: self.color_preference,
            rated: self.rated,
            created_at: self.created_at,
        }
    }
}

/// A new seek asks for what it was made with.
pub proof fn a_seek_asks_for_what_was_wished(
    creator: UserId,
    variant_id: String,
    time_control: TimeControl,
    color_preference: ColorPreference,
    rated: bool,
    created_at: Timestamp,
    seek: Seek,
    unsaid: bool,
)
    requires
        call_ensures(
            Seek::new,
            (creator, variant_id, time_control, color_preference, rated, created_at),
            seek,
        ),
        call_ensures(default_rated, (), unsaid),
    ensures
        seek.creator == creator && seek.variant_id@ == variant_id@,
        seek.time_control == time_control && seek.color_preference == color_preference,
        seek.rated == rated && seek.created_at == created_at,
        unsaid,
{
}

} // verus!
