//! Direct challenges between two players.
//!
//! A challenge starts pending and moves to exactly one terminal state: the
//! challenged player accepts or declines it, or the challenger cancels it.

use vstd::prelude::*;

use crate::domain::ids;
use crate::domain::ids::{ChallengeId, GameId, UserId};
use crate::domain::seek::ColorPreference;
use crate::domain::time_control::TimeControl;
use crate::time::Timestamp;

verus! {

/// Where a challenge is in its life.
#[derive(Debug, Clone, Copy, PartialEq, Eq, Hash, Structural)]
pub enum ChallengeStatus {
    /// Awaiting the challenged player's answer.
    Pending,
    /// Accepted; a game was created.
    Accepted,
    /// Declined by the challenged player.
    Declined,
    /// Withdrawn by the challenger.
    Canceled,
}

/// An invitation from one player to another to play on given terms.
#[derive(Debug, PartialEq, Eq)]
pub struct Challenge {
    /// Stable identifier of the challenge.
    pub id: ChallengeId,
    /// The user who issued it.
    pub challenger: UserId,
    /// The user it was issued to.
    pub challenged: UserId,
    /// The variant proposed.
    pub variant_id: String,
    /// The timing rules proposed.
    pub time_control: TimeControl,
    /// Whether the game is to count towards ratings.
    pub rated: bool,
    /// The side the challenger wants; the challenged player takes the other.
    pub color_preference: ColorPreference,
    /// Where the challenge is in its life.
    pub status: ChallengeStatus,
    /// The game created on acceptance.
    pub game_id: Option<GameId>,
    /// When the challenge was created.
    pub created_at: Timestamp,
}

/// An answer to a challenge.
pub enum Answer {
    /// The challenged player accepts and this game is created.
    Accept(GameId),
    /// The challenged player declines.
    Decline,
    /// The challenger withdraws.
    Cancel,
}

impl Challenge {
    /// Whether a game is recorded exactly when the challenge was accepted.
    pub open spec fn well_formed(self) -> bool {
        self.status is Accepted <==> self.game_id is Some
    }

    /// The challenge after an answer: only a pending challenge takes one.
    pub open spec fn after(self, answer: Answer) -> Challenge {
        if !(self.status is Pending) {
            self
        } else {
            match answer {
                Answer::Accept(game) => Challenge {
                    status: ChallengeStatus::Accepted,
                    game_id: Some(game),
                    ..self
                },
                Answer::Decline => Challenge { status: ChallengeStatus::Declined, ..self },
                Answer::Cancel => Challenge { status: ChallengeStatus::Canceled, ..self },
            }
        }
    }

    /// Creates a pending challenge under a fresh random identifier, with no game.
    #[must_use]
    pub fn new(
        challenger: UserId,
        challenged: UserId,
        variant_id: String,
        time_control: TimeControl,
        rated: bool,
        color_preference: ColorPreference,
        created_at: Timestamp,
    ) -> (r: Self)
        ensures
            ids::is_random(r.id.0),
            r.well_formed(),
            r == (Challenge {
                id: r.id,
                challenger,
                challenged,
                variant_id,
                time_control,
                rated,
                color_preference,
                status: ChallengeStatus::Pending,
                game_id: None,
                created_at,
            }),
    {
        Challenge {
            id: ChallengeId::new(),
            challenger,
            challenged,
            variant_id,
            time_control,
            rated,
            color_preference,
            status: ChallengeStatus::Pending,
            game_id: None,
            created_at,
        }
    }

    /// Whether the challenge awaits an answer.
    #[must_use]
    pub fn is_pending(&self) -> (r: bool)
        ensures
            r == (self.status is Pending),
    {
        self.status == ChallengeStatus::Pending
    }

    /// Accepts a pending challenge and records its game. Returns whether it was
    /// pending; a challenge that was answered before is left as it is.
    pub fn accept(&mut self, game_id: GameId) -> (r: bool)
        ensures
            r == (old(self).status is Pending),
            *final(self) == old(self).after(Answer::Accept(game_id)),
    {
        if !self.is_pending() {
            return false;
        }
        self.status = ChallengeStatus::Accepted;
        self.game_id = Some(game_id);
        true
    }

    /// Declines a pending challenge. Returns whether it was pending; a challenge
    /// that was answered before is left as it is.
    pub fn decline(&mut self) -> (r: bool)
        ensures
            r == (old(self).status is Pending),
            *final(self) == old(self).after(Answer::Decline),
    {
        if !self.is_pending() {
            return false;
        }
        self.status = ChallengeStatus::Declined;
        true
    }

    /// Withdraws a pending challenge. Returns whether it was pending; a challenge
    /// that was answered before is left as it is.
    pub fn cancel(&mut self) -> (r: bool)
        ensures
            r == (old(self).status is Pending),
            *final(self) == old(self).after(Answer::Cancel),
    {
        if !self.is_pending() {
            return false;
        }
        self.status = ChallengeStatus::Canceled;
        true
    }
}

impl Clone for Challenge {
    fn clone(&self) -> (r: Self)
        ensures
            r == *self,
    {
        Challenge {
            id: self.id,
            challenger: self.challenger,
            challenged: self.challenged,
            variant_id: self.variant_id.clone(),
            time_control: self.time_control,
            rated: self.rated,
            color_preference: self.color_preference,
            status: self.status,
            game_id: self.game_id,
            created_at: self.created_at,
        }
    }
}

/// The first answer settles a challenge for good: it is no longer pending, any
/// later answer changes nothing, the terms never change, and a game is recorded
/// exactly when it was accepted.
pub proof fn the_first_answer_is_final(challenge: Challenge, first: Answer, second: Answer)
    ensures
        !(challenge.after(first).status is Pending),
        challenge.after(first).after(second) == challenge.after(first),
        challenge.well_formed() ==> challenge.after(first).well_formed(),
        challenge.after(first) == (Challenge {
            status: challenge.after(first).status,
            game_id: challenge.after(first).game_id,
            ..challenge
        }),
{
}

/// A pending challenge that is accepted is accepted with that game; the answer is taken,
/// and everything else stays. A challenge that was answered before stays as it is.
pub proof fn an_accepted_challenge_has_its_game(c: &mut Challenge, game: GameId, taken: bool)
    requires
        call_ensures(Challenge::accept, (c, game), taken),
    ensures
        taken <==> old(c).status == ChallengeStatus::Pending,
        taken ==> final(c).status == ChallengeStatus::Accepted && final(c).game_id == Some(game),
        !taken ==> *final(c) == *old(c),
        keeps_its_terms(*old(c), *final(c)),
{
}

/// A pending challenge that is declined is declined and has no game; one that was
/// answered before stays as it is.
pub proof fn a_declined_challenge_has_no_game(c: &mut Challenge, taken: bool)
    requires
        call_ensures(Challenge::decline, (c,), taken),
    ensures
        taken <==> old(c).status == ChallengeStatus::Pending,
        taken ==> final(c).status == ChallengeStatus::Declined && final(c).game_id == old(
            c,
        ).game_id,
        !taken ==> *final(c) == *old(c),
        keeps_its_terms(*old(c), *final(c)),
{
}

/// A pending challenge that is withdrawn is canceled and has no game; one that was
/// answered before stays as it is.
pub proof fn a_withdrawn_challenge_has_no_game(c: &mut Challenge, taken: bool)
    requires
        call_ensures(Challenge::cancel, (c,), taken),
    ensures
        taken <==> old(c).status == ChallengeStatus::Pending,
        taken ==> final(c).status == ChallengeStatus::Canceled && final(c).game_id == old(
            c,
        ).game_id,
        !taken ==> *final(c) == *old(c),
        keeps_its_terms(*old(c), *final(c)),
{
}

/// Whether both are one challenge on the same terms.
pub open spec fn keeps_its_terms(before: Challenge, after: Challenge) -> bool {
    &&& after.id == before.id
    &&& after.challenger == before.challenger
    &&& after.challenged == before.challenged
    &&& after.variant_id == before.variant_id
    &&& after.time_control == before.time_control
    &&& after.rated == before.rated
    &&& after.color_preference == before.color_preference
    &&& after.created_at == before.created_at
}

/// A new challenge is between its two players, on the terms it was made with, and
/// awaits an answer without a game.
pub proof fn a_new_challenge_awaits_an_answer(
    challenger: UserId,
    challenged: UserId,
    variant_id: String,
    time_control: TimeControl,
    rated: bool,
    color_preference: ColorPreference,
    created_at: Timestamp,
    c: Challenge,
    pending: bool,
)
    requires
        call_ensures(
            Challenge::new,
            (
                challenger,
                challenged,
                variant_id,
                time_control,
                rated,
                color_preference,
                created_at,
            ),
            c,
        ),
        call_ensures(Challenge::is_pending, (&c,), pending),
    ensures
        pending && c.status == ChallengeStatus::Pending && c.game_id is None,
        c.challenger == challenger && c.challenged == challenged,
        c.variant_id@ == variant_id@ && c.time_control == time_control,
        c.rated == rated && c.color_preference == color_preference,
        c.created_at == created_at,
{
}

} // verus!
