//! The result of a game for one player.

use vstd::prelude::*;

verus! {

/// How a game ended for the rated player.
#[derive(Debug, Clone, Copy, PartialEq, Eq, Structural)]
pub enum Score {
    /// The player won.
    Win,
    /// The game was drawn.
    Draw,
    /// The player lost.
    Loss,
}

impl Score {
    /// Twice the score, so that a draw counts one.
    pub open spec fn doubled(self) -> int {
        match self {
            Score::Win => 2,
            Score::Draw => 1,
            Score::Loss => 0,
        }
    }

    /// The score in half points: a win is two, a draw one, a loss none.
    #[must_use]
    pub fn half_points(self) -> (r: u8)
        ensures
            r == self.doubled(),
    {
        match self {
            Score::Win => 2,
            Score::Draw => 1,
            Score::Loss => 0,
        }
    }
}

/// A win is worth two draws and a loss nothing, so that the two players' scores of one
/// game always make up the same.
pub proof fn scores_make_up_one_game(won: u8, drawn: u8, lost: u8)
    requires
        call_ensures(Score::half_points, (Score::Win,), won),
        call_ensures(Score::half_points, (Score::Draw,), drawn),
        call_ensures(Score::half_points, (Score::Loss,), lost),
    ensures
        won == 2 * drawn,
        lost == 0,
        won + lost == drawn + drawn,
        drawn == 1,
{
}

} // verus!
