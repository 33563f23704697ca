//! The authoritative clock of a live game, with flag detection.
//!
//! [`ClockEngine`] is a pure state machine: every method that needs the current
//! instant takes it as an argument.
//!
//! - A real-time game gives each side a draining budget. The side to move spends
//!   elapsed time; completing a move deducts it, adds the increment and starts
//!   the opponent's clock. A side whose budget is spent has flagged.
//! - A correspondence game gives the side to move a fixed window per move.
//! - An unlimited game never flags and always reports zero.

use vstd::prelude::*;

use crate::domain::clock::{Clock, ClockView};
use crate::domain::time_control::TimeControl;
use crate::time;
use crate::time::{Duration, Timestamp};
use crate::variant::color::Color;

verus! {

/// The number of seconds in a day.
pub const SECONDS_PER_DAY: u64 = 86_400;

/// What a clock holds, in nanoseconds: the mathematical model of a
/// [`ClockEngine`].
pub enum ClockState {
    /// A draining budget per side, and the side whose clock runs with the
    /// instant it began to run.
    RealTime { white: nat, black: nat, increment: nat, ticking: Option<(Color, int)> },
    /// A window per move, and the side to move with the instant its window
    /// opened.
    Correspondence { per_move: nat, ticking: Option<(Color, int)> },
    /// No timing at all.
    Unlimited,
}

/// The budget left after a move: the elapsed time goes, and the increment comes
/// only when some time is left.
pub open spec fn budget_after_move(banked: nat, spent: nat, increment: nat) -> nat {
    let left = time::saturating_sub_spec(banked, spent);
    if left == 0 {
        0
    } else {
        time::saturating_add_spec(left, increment)
    }
}

impl ClockState {
    /// The clock of a fresh game.
    pub open spec fn fresh(tc: TimeControl) -> ClockState {
        match tc {
            TimeControl::RealTime { initial, increment } => ClockState::RealTime {
                white: initial@,
                black: initial@,
                increment: increment@,
                ticking: None,
            },
            TimeControl::Correspondence { days_per_move } => ClockState::Correspondence {
                per_move: (days_per_move * SECONDS_PER_DAY * 1_000_000_000) as nat,
                ticking: None,
            },
            TimeControl::Unlimited => ClockState::Unlimited,
        }
    }

    /// The side whose clock runs, with the instant it began to run.
    pub open spec fn ticking(self) -> Option<(Color, int)> {
        match self {
            ClockState::RealTime { ticking, .. } => ticking,
            ClockState::Correspondence { ticking, .. } => ticking,
            ClockState::Unlimited => None,
        }
    }

    /// The clock with another side running.
    pub open spec fn with_ticking(self, side: Option<(Color, int)>) -> ClockState {
        match self {
            ClockState::RealTime { white, black, increment, .. } => ClockState::RealTime {
                white,
                black,
                increment,
                ticking: side,
            },
            ClockState::Correspondence { per_move, .. } => ClockState::Correspondence {
                per_move,
                ticking: side,
            },
            ClockState::Unlimited => ClockState::Unlimited,
        }
    }

    /// What `player` has banked: the budget, or the window of one move.
    pub open spec fn banked(self, player: Color) -> nat {
        match self {
            ClockState::RealTime { white, black, .. } => match player {
                Color::White => white,
                Color::Black => black,
            },
            ClockState::Correspondence { per_move, .. } => per_move,
            ClockState::Unlimited => 0,
        }
    }

    /// The instant the running clock began to run.
    pub open spec fn started(self) -> int {
        match self.ticking() {
            Some((_, at)) => at,
            None => 0,
        }
    }

    /// Whether `player`'s clock is the one that runs.
    pub open spec fn runs(self, player: Color) -> bool {
        match self.ticking() {
            Some((side, _)) => side == player,
            None => false,
        }
    }

    /// What `player` has left at `now`: the running side's bank drains, the
    /// other side's budget stands still, and outside real-time games the other
    /// side has nothing.
    pub open spec fn remaining(self, player: Color, now: int) -> nat {
        if self.runs(player) {
            time::saturating_sub_spec(
                self.banked(player),
                time::elapsed(self.started(), now),
            )
        } else if self is RealTime {
            self.banked(player)
        } else {
            0
        }
    }

    /// The clock after `mover` completed a move at `now`.
    pub open spec fn after_move(self, mover: Color, now: int) -> ClockState {
        match self {
            ClockState::RealTime { white, black, increment, .. } => {
                let after = if self.runs(mover) {
                    budget_after_move(
                        self.banked(mover),
                        time::elapsed(self.started(), now),
                        increment,
                    )
                } else {
                    self.banked(mover)
                };
                ClockState::RealTime {
                    white: if mover is White {
                        after
                    } else {
                        white
                    },
                    black: if mover is Black {
                        after
                    } else {
                        black
                    },
                    increment,
                    ticking: Some((mover.other(), now)),
                }
            },
            _ => self.with_ticking(Some((mover.other(), now))),
        }
    }

    /// The side that is out of time at `now`: the running side with nothing
    /// left.
    pub open spec fn flagged(self, now: int) -> Option<Color> {
        match self.ticking() {
            Some((side, _)) => if self.remaining(side, now) == 0 {
                Some(side)
            } else {
                None
            },
            None => None,
        }
    }

    /// What both sides have left at `now`, and when the running clock began to
    /// run.
    pub open spec fn snapshot(self, now: int) -> ClockView {
        ClockView {
            white: self.remaining(Color::White, now),
            black: self.remaining(Color::Black, now),
            started: match self.ticking() {
                Some((_, at)) => Some(at),
                None => None,
            },
        }
    }

    /// The instant at which the running side is out of time.
    pub open spec fn deadline(self) -> Option<int> {
        match self.ticking() {
            Some((side, started)) => Some(started + self.banked(side)),
            None => None,
        }
    }
}

/// The running side and the instant its clock began to run, as a model.
pub open spec fn ticking_view(ticking: Option<(Color, Timestamp)>) -> Option<(Color, int)> {
    match ticking {
        Some((side, started)) => Some((side, started@)),
        None => None,
    }
}

#[derive(Debug, Clone, Copy, PartialEq, Eq)]
struct RealTimeState {
    white_remaining: Duration,
    black_remaining: Duration,
    increment: Duration,
    ticking: Option<(Color, Timestamp)>,
}

#[derive(Debug, Clone, Copy, PartialEq, Eq)]
struct CorrespondenceState {
    per_move: Duration,
    ticking: Option<(Color, Timestamp)>,
}

#[derive(Debug, Clone, Copy, PartialEq, Eq)]
enum Mode {
    RealTime(RealTimeState),
    Correspondence(CorrespondenceState),
    Unlimited,
}

/// An authoritative clock for one live game.
///
/// Build one with [`ClockEngine::new`], call [`ClockEngine::start`] once play
/// begins and [`ClockEngine::on_move`] after every accepted move.
#[derive(Debug, Clone, Copy, PartialEq, Eq)]
pub struct ClockEngine {
    mode: Mode,
}

impl RealTimeState {
    fn remaining(&self, player: Color) -> (r: Duration)
        ensures
            r == match player {
                Color::White => self.white_remaining,
                Color::Black => self.black_remaining,
            },
    {
        match player {
            Color::White => self.white_remaining,
            Color::Black => self.black_remaining,
        }
    }
}

impl ClockEngine {
    /// What the clock holds.
    pub closed spec fn view(self) -> ClockState {
        match self.mode {
            Mode::RealTime(s) => ClockState::RealTime {
                white: s.white_remaining@,
                black: s.black_remaining@,
                increment: s.increment@,
                ticking: ticking_view(s.ticking),
            },
            Mode::Correspondence(s) => ClockState::Correspondence {
                per_move: s.per_move@,
                ticking: ticking_view(s.ticking),
            },
            Mode::Unlimited => ClockState::Unlimited,
        }
    }

    /// Builds a clock with both sides at their full budget and none running.
    #[must_use]
    pub fn new(time_control: &TimeControl) -> (r: Self)
        ensures
            r@ == ClockState::fresh(*time_control),
    {
        let mode = match *time_control {
            TimeControl::RealTime { initial, increment } => Mode::RealTime(
                RealTimeState {
                    white_remaining: initial,
                    black_remaining: initial,
                    increment,
                    ticking: None,
                },
            ),
            TimeControl::Correspondence { days_per_move } => Mode::Correspondence(
                CorrespondenceState {
                    per_move: Duration::from_secs((days_per_move as u64) * SECONDS_PER_DAY),
                    ticking: None,
                },
            ),
            TimeControl::Unlimited => Mode::Unlimited,
        };
        ClockEngine { mode }
    }

    /// Builds a clock for a game that goes on after a pause: a real-time game
    /// with the given budgets, any other game as a fresh one. No clock runs
    /// until [`ClockEngine::start`], so the pause is charged to nobody.
    #[must_use]
    pub fn from_remaining(time_control: &TimeControl, white: Duration, black: Duration) -> (r: Self)
        ensures
            r@ == match *time_control {
                TimeControl::RealTime { increment, .. } => ClockState::RealTime {
                    white: white@,
                    black: black@,
                    increment: increment@,
                    ticking: None,
                },
                _ => ClockState::fresh(*time_control),
            },
    {
        match *time_control {
            TimeControl::RealTime { increment, .. } => {
                let state = RealTimeState {
                    white_remaining: white,
                    black_remaining: black,
                    increment,
                    ticking: None,
                };
                ClockEngine { mode: Mode::RealTime(state) }
            },
            _ => ClockEngine::new(time_control),
        }
    }

    /// Whether the clock tracks a draining budget per side.
    #[must_use]
    pub fn is_real_time(&self) -> (r: bool)
        ensures
            r == (self@ is RealTime),
    {
        matches!(self.mode, Mode::RealTime(_))
    }

    /// Whether the clock tracks no time at all.
    #[must_use]
    pub fn is_unlimited(&self) -> (r: bool)
        ensures
            r == (self@ is Unlimited),
    {
        matches!(self.mode, Mode::Unlimited)
    }

    /// Starts `to_move`'s clock at `now`. Calling it again anchors the running
    /// clock anew; an unlimited clock is left alone.
    pub fn start(&mut self, to_move: Color, now: Timestamp)
        ensures
            final(self)@ == old(self)@.with_ticking(Some((to_move, now@))),
    {
        match self.mode {
            Mode::RealTime(mut state) => {
                state.ticking = Some((to_move, now));
                self.mode = Mode::RealTime(state);
            },
            Mode::Correspondence(mut state) => {
                state.ticking = Some((to_move, now));
                self.mode = Mode::Correspondence(state);
            },
            Mode::Unlimited => {},
        }
    }

    /// Stops the running clock, as at the end of a game.
    pub fn stop(&mut self)
        ensures
            final(self)@ == old(self)@.with_ticking(None),
    {
        match self.mode {
            Mode::RealTime(mut state) => {
                state.ticking = None;
                self.mode = Mode::RealTime(state);
            },
            Mode::Correspondence(mut state) => {
                state.ticking = None;
                self.mode = Mode::Correspondence(state);
            },
            Mode::Unlimited => {},
        }
    }

    /// Records that `mover` completed a move at `now` and starts the opponent's
    /// clock.
    ///
    /// In a real-time game the time since the mover's clock began to run is
    /// deducted, and the increment is added when some time is left: a move that
    /// overran its budget leaves the mover at zero. When it is not the mover's
    /// clock that runs, nothing is deducted and nothing is added.
    pub fn on_move(&mut self, mover: Color, now: Timestamp)
        ensures
            final(self)@ == old(self)@.after_move(mover, now@),
    {
        match self.mode {
            Mode::RealTime(mut state) => {
                if let Some((ticking, started)) = state.ticking {
                    if ticking == mover {
                        let elapsed = now.elapsed_since(started);
                        let mut left = state.remaining(mover).saturating_sub(elapsed);
                        if !left.is_zero() {
                            left = left.saturating_add(state.increment);
                        }
                        match mover {
                            Color::White => {
                                state.white_remaining = left;
                            },
                            Color::Black => {
                                state.black_remaining = left;
                            },
                        }
                    }
                }
                state.ticking = Some((mover.opposite(), now));
                self.mode = Mode::RealTime(state);
            },
            Mode::Correspondence(mut state) => {
                state.ticking = Some((mover.opposite(), now));
                self.mode = Mode::Correspondence(state);
            },
            Mode::Unlimited => {},
        }
    }

    /// `player`'s remaining time, live at `now`.
    #[must_use]
    pub fn remaining(&self, player: Color, now: Timestamp) -> (r: Duration)
        ensures
            r@ == self@.remaining(player, now@),
    {
        match self.mode {
            Mode::RealTime(state) => {
                let banked = state.remaining(player);
                match state.ticking {
                    Some((ticking, started)) => if ticking == player {
                        banked.saturating_sub(now.elapsed_since(started))
                    } else {
                        banked
                    },
                    None => banked,
                }
            },
            Mode::Correspondence(state) => match state.ticking {
                Some((ticking, started)) => if ticking == player {
                    state.per_move.saturating_sub(now.elapsed_since(started))
                } else {
                    Duration::zero()
                },
                None => Duration::zero(),
            },
            Mode::Unlimited => Duration::zero(),
        }
    }

    fn ticking(&self) -> (r: Option<(Color, Timestamp)>)
        ensures
            ticking_view(r) == self@.ticking(),
    {
        match self.mode {
            Mode::RealTime(state) => state.ticking,
            Mode::Correspondence(state) => state.ticking,
            Mode::Unlimited => None,
        }
    }

    /// The side that has run out of time at `now`, if any.
    #[must_use]
    pub fn flagged(&self, now: Timestamp) -> (r: Option<Color>)
        ensures
            r == self@.flagged(now@),
    {
        match self.ticking() {
            Some((side, _)) => if self.remaining(side, now).is_zero() {
                Some(side)
            } else {
                None
            },
            None => None,
        }
    }

    /// The instant at which the running side is out of time, when a clock runs
    /// and the calendar can express that instant.
    pub(crate) fn expressible_deadline(&self) -> (r: Option<Timestamp>)
        ensures
            match self@.deadline() {
                Some(at) => if at <= time::MAX_INSTANT_NANOS {
                    r is Some && r->0@ == at
                } else {
                    r is None
                },
                None => r is None,
            },
    {
        match self.mode {
            Mode::RealTime(state) => match state.ticking {
                Some((side, started)) => started.checked_add(state.remaining(side)),
                None => None,
            },
            Mode::Correspondence(state) => match state.ticking {
                Some((_, started)) => started.checked_add(state.per_move),
                None => None,
            },
            Mode::Unlimited => None,
        }
    }

    /// The instant at which the side to move will flag, if a clock runs.
    #[must_use]
    pub fn flag_deadline(&self) -> (r: Option<Timestamp>)
        requires
            self@.deadline() is Some ==> self@.deadline()->0 <= time::MAX_INSTANT_NANOS,
        ensures
            match self@.deadline() {
                Some(at) => r is Some && r->0@ == at,
                None => r is None,
            },
    {
        self.expressible_deadline()
    }

    /// A snapshot of both sides' live remaining time at `now`, with the instant
    /// the running clock began to run.
    #[must_use]
    pub fn snapshot(&self, now: Timestamp) -> (r: Clock)
        ensures
            r@ == self@.snapshot(now@),
    {
        let turn_started_at = match self.ticking() {
            Some((_, started)) => Some(started),
            None => None,
        };
        Clock::with_times(
            self.remaining(Color::White, now),
            self.remaining(Color::Black, now),
            turn_started_at,
        )
    }
}

/// Only the running side can be out of time: whoever is flagged is the side
/// whose clock runs and has nothing left, and no idle side ever flags.
pub proof fn only_the_running_side_flags(clock: ClockState, player: Color, now: int)
    ensures
        clock.flagged(now) == Some(player) <==> clock.runs(player) && clock.remaining(player, now)
            == 0,
        !clock.runs(player) ==> clock.flagged(now) != Some(player),
{
}

/// A clock that was never started, was stopped, or is unlimited flags nobody.
pub proof fn a_stopped_clock_never_flags(clock: ClockState, side: Color, at: int, now: int)
    ensures
        clock.with_ticking(None).flagged(now) is None,
        clock.ticking() is None ==> clock.flagged(now) is None,
        ClockState::Unlimited.with_ticking(Some((side, at))).flagged(now) is None,
        ClockState::Unlimited.after_move(side, at).flagged(now) is None,
        ClockState::Unlimited.remaining(side, now) == 0,
{
}

/// As time passes nobody gains time, the idle side of a real-time game loses
/// none, and a flag once fallen stays fallen.
pub proof fn time_only_drains(clock: ClockState, player: Color, now: int, later: int)
    requires
        now <= later,
    ensures
        clock.remaining(player, later) <= clock.remaining(player, now) <= clock.banked(player),
        clock is RealTime && !clock.runs(player) ==> clock.remaining(player, later)
            == clock.remaining(player, now),
        clock.flagged(now) is Some ==> clock.flagged(later) == clock.flagged(now),
{
}

/// A clock read before its running side's window opened shows the whole bank: a
/// wall clock that steps back adds no time.
pub proof fn a_backwards_clock_adds_no_time(clock: ClockState, player: Color, now: int)
    requires
        clock.runs(player),
        now <= clock.started(),
    ensures
        clock.remaining(player, now) == clock.banked(player),
{
}

/// The flag deadline is exact: a running side with time in its bank is out of
/// time at `now` if and only if the deadline is not after `now`.
pub proof fn the_deadline_is_exact(clock: ClockState, player: Color, now: int)
    requires
        clock.runs(player),
        clock.banked(player) > 0,
    ensures
        clock.flagged(now) is Some <==> clock.deadline()->0 <= now,
{
}

/// A completed move hands the clock to the opponent and leaves the opponent's
/// bank alone.
pub proof fn a_move_passes_the_turn(clock: ClockState, mover: Color, now: int)
    ensures
        !(clock is Unlimited) ==> clock.after_move(mover, now).ticking() == Some(
            (mover.other(), now),
        ),
        clock.after_move(mover, now).banked(mover.other()) == clock.banked(mover.other()),
        clock is RealTime ==> clock.after_move(mover, now).remaining(mover.other(), now)
            == clock.banked(mover.other()),
{
}

/// The increment cannot bring a flagged clock back: a move made with nothing
/// left leaves nothing, and a move made in time banks what was left and the
/// increment, as far as a span can hold them.
pub proof fn the_increment_never_revives_a_flag(
    white: nat,
    black: nat,
    increment: nat,
    mover: Color,
    started: int,
    now: int,
)
    ensures
        ({
            let clock = ClockState::RealTime {
                white,
                black,
                increment,
                ticking: Some((mover, started)),
            };
            let left = clock.remaining(mover, now);
            let after = clock.after_move(mover, now);
            &&& clock.flagged(now) is Some ==> after.banked(mover) == 0
            &&& clock.flagged(now) is None ==> after.banked(mover) == time::saturating_add_spec(
                left,
                increment,
            )
        }),
{
}

/// The running clock of a real-time game drains second by second: until the budget is
/// gone, what is left and what has passed make up the budget. The other clock stands
/// still. Only the running side flags, at the instant its budget is gone.
pub proof fn a_running_clock_drains_second_by_second(
    white: nat,
    black: nat,
    increment: nat,
    side: Color,
    other: Color,
    started: int,
    now: int,
)
    requires
        side != other,
    ensures
        ({
            let clock = ClockState::RealTime {
                white,
                black,
                increment,
                ticking: Some((side, started)),
            };
            let bank = if side is White {
                white
            } else {
                black
            };
            let idle = if side is White {
                black
            } else {
                white
            };
            &&& now <= started ==> clock.remaining(side, now) == bank
            &&& started <= now <= started + bank ==> clock.remaining(side, now) + (now - started)
                == bank
            &&& started + bank <= now ==> clock.remaining(side, now) == 0
            &&& clock.remaining(other, now) == idle
            &&& clock.flagged(now) == Some(side) <==> bank == 0 || started + bank <= now
            &&& clock.flagged(now) != Some(other)
            &&& clock.deadline() == Some(started + bank)
            &&& clock.snapshot(now).white == clock.remaining(Color::White, now)
            &&& clock.snapshot(now).black == clock.remaining(Color::Black, now)
            &&& clock.snapshot(now).started == Some(started)
        }),
{
}

/// A move in a real-time game costs its mover the time it took and earns the increment,
/// unless the budget was gone; it costs the opponent nothing, and the opponent's clock
/// runs from then on.
pub proof fn a_move_costs_the_time_it_took(
    white: nat,
    black: nat,
    increment: nat,
    mover: Color,
    other: Color,
    started: int,
    now: int,
)
    requires
        mover != other,
    ensures
        ({
            let clock = ClockState::RealTime {
                white,
                black,
                increment,
                ticking: Some((mover, started)),
            };
            let bank = if mover is White {
                white
            } else {
                black
            };
            let took: int = if now <= started {
                0
            } else {
                now - started
            };
            let after = clock.after_move(mover, now);
            &&& after is RealTime
            &&& after->RealTime_increment == increment
            &&& after->RealTime_ticking == Some((other, now))
            &&& mover is White ==> after->black == black
            &&& mover is Black ==> after->white == white
            &&& ({
                let kept = if mover is White {
                    after->white
                } else {
                    after->black
                };
                &&& took >= bank ==> kept == 0
                &&& took < bank && bank - took + increment
                    <= 18_446_744_073_709_551_615_999_999_999 ==> kept == bank - took + increment
                &&& took < bank && bank - took + increment
                    > 18_446_744_073_709_551_615_999_999_999 ==> kept
                    == 18_446_744_073_709_551_615_999_999_999
            })
        }),
{
}

/// A move by the side whose clock does not run, or while none runs, changes no budget of
/// a real-time game; the opponent's clock runs from then on.
pub proof fn a_move_off_the_clock_costs_nothing(
    white: nat,
    black: nat,
    increment: nat,
    mover: Color,
    other: Color,
    ticking: Option<(Color, int)>,
    now: int,
)
    requires
        mover != other,
        ticking matches Some((side, _)) ==> side == other,
    ensures
        (ClockState::RealTime { white, black, increment, ticking }).after_move(mover, now) == (
        ClockState::RealTime { white, black, increment, ticking: Some((other, now)) }),
{
}

/// Each move of a correspondence game opens a whole window for the opponent: the side to
/// move has the window less the time since it opened, flags when the window is over, and
/// the other side has nothing.
pub proof fn a_correspondence_move_opens_a_whole_window(
    per_move: nat,
    ticking: Option<(Color, int)>,
    mover: Color,
    other: Color,
    at: int,
    now: int,
)
    requires
        mover != other,
        per_move > 0,
    ensures
        ({
            let after = (ClockState::Correspondence { per_move, ticking }).after_move(mover, at);
            &&& after == (ClockState::Correspondence { per_move, ticking: Some((other, at)) })
            &&& at <= now <= at + per_move ==> after.remaining(other, now) + (now - at) == per_move
            &&& now <= at ==> after.remaining(other, now) == per_move
            &&& at + per_move <= now ==> after.remaining(other, now) == 0
            &&& after.remaining(mover, now) == 0
            &&& after.flagged(now) == Some(other) <==> at + per_move <= now
            &&& after.flagged(now) != Some(mover)
            &&& after.deadline() == Some(at + per_move)
            &&& after.snapshot(now).started == Some(at)
            &&& after.snapshot(now).white == after.remaining(Color::White, now)
            &&& after.snapshot(now).black == after.remaining(Color::Black, now)
        }),
{
}

/// While no clock runs nobody flags, nobody has a deadline, and the budgets of a
/// real-time game stand still. A game without a limit never shows any time.
pub proof fn idle_clocks_stand_still(
    white: nat,
    black: nat,
    increment: nat,
    per_move: nat,
    player: Color,
    at: int,
    now: int,
)
    ensures
        ({
            let clock = ClockState::RealTime { white, black, increment, ticking: None };
            &&& clock.remaining(Color::White, now) == white
            &&& clock.remaining(Color::Black, now) == black
            &&& clock.flagged(now) is None && clock.deadline() is None
            &&& clock.snapshot(now) == (ClockView { white, black, started: None })
        }),
        ({
            let clock = ClockState::Correspondence { per_move, ticking: None };
            &&& clock.remaining(player, now) == 0
            &&& clock.flagged(now) is None && clock.deadline() is None
        }),
        ({
            let clock = ClockState::Unlimited;
            &&& clock.remaining(player, now) == 0
            &&& clock.flagged(now) is None && clock.deadline() is None
            &&& clock.after_move(player, at) is Unlimited
            &&& clock.with_ticking(Some((player, at))) is Unlimited
        }),
{
}

/// Starting or stopping a clock changes which side runs and nothing else.
pub proof fn starting_changes_no_budget(
    white: nat,
    black: nat,
    increment: nat,
    per_move: nat,
    was: Option<(Color, int)>,
    will: Option<(Color, int)>,
)
    ensures
        (ClockState::RealTime { white, black, increment, ticking: was }).with_ticking(will) == (
        ClockState::RealTime { white, black, increment, ticking: will }),
        (ClockState::Correspondence { per_move, ticking: was }).with_ticking(will) == (
        ClockState::Correspondence { per_move, ticking: will }),
{
}

/// A fresh clock has what was agreed: each side the whole budget of a real-time game, or
/// a window of that many days of 24 hours, and no clock runs.
pub proof fn a_fresh_clock_has_what_was_agreed(
    time_control: TimeControl,
    clock: ClockEngine,
    player: Color,
    now: Timestamp,
    left: Duration,
    flagged: Option<Color>,
)
    requires
        call_ensures(ClockEngine::new, (&time_control,), clock),
        call_ensures(ClockEngine::remaining, (&clock, player, now), left),
        call_ensures(ClockEngine::flagged, (&clock, now), flagged),
    ensures
        match time_control {
            TimeControl::RealTime { initial, increment } => {
                &&& left@ == initial@
                &&& clock@ == (ClockState::RealTime {
                    white: initial@,
                    black: initial@,
                    increment: increment@,
                    ticking: None,
                })
            },
            TimeControl::Correspondence { days_per_move } => clock@ == (
            ClockState::Correspondence {
                per_move: (days_per_move * 24 * 60 * 60 * 1_000_000_000) as nat,
                ticking: None,
            }),
            TimeControl::Unlimited => clock@ is Unlimited,
        },
        flagged is None,
{
}

/// A clock taken up again has the budgets it is given, keeps the agreed increment, and
/// charges nobody until it is started; the other time controls start afresh.
pub proof fn a_clock_taken_up_again_keeps_its_budgets(
    time_control: TimeControl,
    white: Duration,
    black: Duration,
    clock: ClockEngine,
    fresh: ClockEngine,
    now: Timestamp,
    left_white: Duration,
    left_black: Duration,
)
    requires
        call_ensures(ClockEngine::from_remaining, (&time_control, white, black), clock),
        call_ensures(ClockEngine::new, (&time_control,), fresh),
        call_ensures(ClockEngine::remaining, (&clock, Color::White, now), left_white),
        call_ensures(ClockEngine::remaining, (&clock, Color::Black, now), left_black),
    ensures
        time_control matches TimeControl::RealTime { increment, .. } ==> left_white@ == white@
            && left_black@ == black@ && clock@ is RealTime && clock@->RealTime_increment
            == increment@ && clock@->RealTime_ticking is None,
        !(time_control is RealTime) ==> clock@ == fresh@,
{
}

/// What a clock shows after it was started for a side at an instant: that side has a
/// deadline, the whole of its time after the start, and loses exactly from then on.
pub proof fn a_started_clock_runs_to_its_deadline(
    clock: &mut ClockEngine,
    before: ClockEngine,
    after: ClockEngine,
    side: Color,
    at: Timestamp,
    now: Timestamp,
    flagged: Option<Color>,
    deadline: Option<Timestamp>,
    shown: Clock,
    left: Duration,
)
    requires
        before == *old(clock),
        after == *final(clock),
        call_ensures(ClockEngine::start, (clock, side, at), ()),
        call_ensures(ClockEngine::flagged, (&after, now), flagged),
        call_ensures(ClockEngine::flag_deadline, (&after,), deadline),
        call_ensures(ClockEngine::snapshot, (&after, now), shown),
        call_ensures(ClockEngine::remaining, (&after, side, now), left),
        at@ <= now@,
    ensures
        before@ matches ClockState::RealTime { white, black, .. } ==> {
            let bank = if side is White {
                white
            } else {
                black
            };
            &&& deadline matches Some(d) && d@ == at@ + bank
            &&& flagged == Some(side) <==> at@ + bank <= now@
            &&& flagged is Some ==> flagged == Some(side)
            &&& now@ < at@ + bank ==> left@ + (now@ - at@) == bank
            &&& shown.turn_started_at matches Some(t) && t@ == at@
            &&& side is White ==> shown.white_remaining@ == left@ && shown.black_remaining@ == black
            &&& side is Black ==> shown.black_remaining@ == left@ && shown.white_remaining@ == white
        },
        before@ matches ClockState::Correspondence { per_move, .. } ==> {
            &&& deadline matches Some(d) && d@ == at@ + per_move
            &&& flagged == Some(side) <==> at@ + per_move <= now@
            &&& flagged is Some ==> flagged == Some(side)
            &&& now@ < at@ + per_move ==> left@ + (now@ - at@) == per_move
        },
        before@ is Unlimited ==> flagged is None && deadline is None && left@ == 0,
{
    assert(shown@.white == shown.white_remaining@ && shown@.black == shown.black_remaining@);
    assert(before@.with_ticking(Some((side, at@))).snapshot(now@) == shown@);
}

/// A player's time before and after their own move differ by the increment, as far as a
/// span can hold it, unless the flag had fallen; the opponent's is untouched.
pub proof fn a_completed_move_earns_the_increment(
    clock: &mut ClockEngine,
    before: ClockEngine,
    after: ClockEngine,
    mover: Color,
    other: Color,
    now: Timestamp,
    later: Timestamp,
    left: Duration,
    kept: Duration,
    theirs: Duration,
    theirs_after: Duration,
    flagged: Option<Color>,
)
    requires
        before == *old(clock),
        after == *final(clock),
        mover != other,
        before@ is RealTime,
        before@->RealTime_ticking matches Some((side, _)) && side == mover,
        call_ensures(ClockEngine::on_move, (clock, mover, now), ()),
        call_ensures(ClockEngine::flagged, (&before, now), flagged),
        call_ensures(ClockEngine::remaining, (&before, mover, now), left),
        call_ensures(ClockEngine::remaining, (&after, mover, later), kept),
        call_ensures(ClockEngine::remaining, (&before, other, now), theirs),
        call_ensures(ClockEngine::remaining, (&after, other, now), theirs_after),
    ensures
        flagged is Some <==> left@ == 0,
        flagged is Some ==> kept@ == 0,
        flagged is None && left@ + before@->RealTime_increment
            <= 18_446_744_073_709_551_615_999_999_999 ==> kept@ == left@
            + before@->RealTime_increment,
        theirs_after@ == theirs@,
        after@->RealTime_increment == before@->RealTime_increment,
        after@->RealTime_ticking == Some((other, now@)),
{
}

/// A stopped clock keeps what it showed, and nobody flags.
pub proof fn a_stopped_clock_keeps_what_was_banked(
    clock: &mut ClockEngine,
    after: ClockEngine,
    player: Color,
    now: Timestamp,
    flagged: Option<Color>,
    deadline: Option<Timestamp>,
)
    requires
        after == *final(clock),
        call_ensures(ClockEngine::stop, (clock,), ()),
        call_ensures(ClockEngine::flagged, (&after, now), flagged),
        call_ensures(ClockEngine::flag_deadline, (&after,), deadline),
    ensures
        flagged is None && deadline is None,
        old(clock)@ matches ClockState::RealTime { white, black, increment, .. } ==> after@ == (
        ClockState::RealTime { white, black, increment, ticking: None }),
        old(clock)@ matches ClockState::Correspondence { per_move, .. } ==> after@ == (
        ClockState::Correspondence { per_move, ticking: None }),
        old(clock)@ is Unlimited ==> after@ is Unlimited,
{
}

/// The kind of a clock is that of the time control it was made for.
pub proof fn a_clock_is_of_its_kind(
    time_control: TimeControl,
    clock: ClockEngine,
    draining: bool,
    endless: bool,
)
    requires
        call_ensures(ClockEngine::new, (&time_control,), clock),
        call_ensures(ClockEngine::is_real_time, (&clock,), draining),
        call_ensures(ClockEngine::is_unlimited, (&clock,), endless),
    ensures
        draining <==> time_control is RealTime,
        endless <==> time_control is Unlimited,
{
}

} // verus!
