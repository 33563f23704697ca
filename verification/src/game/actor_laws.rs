//! What holds of every live game, whatever its variant: laws over what is asked of its
//! actor and what the actor answers.

use vstd::prelude::*;

use crate::domain::clock::Clock;
use crate::domain::game::Game;
use crate::domain::ids;
use crate::domain::ids::GameId;
use crate::domain::time_control::TimeControl;
use crate::game::actor;
use crate::game::actor::{
    ActorState,
    ClockRemaining,
    Command,
    GameActor,
    Reply,
    Snapshot,
    Step,
    Turn,
};
use crate::game::clock::ClockState;
use crate::game::error::GameSessionError;
use crate::game::storage::StorageError;
use crate::time::Timestamp;
use crate::variant::color::Color;
use crate::variant::error::GameError;
use crate::variant::json::JsonView;
use crate::variant::payload;
use crate::variant::payload::{Action, PlayerView};
use crate::variant::session::GameSession;
use crate::variant::status::{ActionEffect, EndReason, GameStatus, Outcome};

verus! {

/// Whether `side`'s clock runs since `since` and its time is up at `due`.
pub open spec fn time_is_up_at(clock: ClockState, side: Color, since: int, due: int) -> bool {
    match clock {
        ClockState::RealTime { white, black, ticking, .. } => {
            &&& ticking == Some((side, since))
            &&& side == Color::White ==> due == since + white
            &&& side == Color::Black ==> due == since + black
        },
        ClockState::Correspondence { per_move, ticking } => {
            &&& ticking == Some((side, since))
            &&& due == since + per_move
        },
        ClockState::Unlimited => false,
    }
}

/// Whether the shown clocks are what both sides have at `now`, with no turn running; a
/// game without a limit shows none.
pub open spec fn stands_still(shown: Option<Clock>, clock: ClockState, now: int) -> bool {
    &&& shown is None <==> clock is Unlimited
    &&& shown matches Some(c) ==> {
        &&& c.turn_started_at is None
        &&& c.white_remaining@ == clock.remaining(Color::White, now)
        &&& c.black_remaining@ == clock.remaining(Color::Black, now)
    }
}

/// Whether the steps tell everyone that the game ended with `outcome`, and store it
/// unless it was stored before.
pub open spec fn announces(
    steps: Seq<Step>,
    game_id: GameId,
    ply: u32,
    seen: JsonView,
    persisted: bool,
    outcome: Outcome,
    clock: ClockState,
    now: int,
) -> bool {
    &&& steps.len() == if persisted {
        2int
    } else {
        4int
    }
    &&& steps[0] matches Step::Broadcast(update) && update.status == GameStatus::Finished(outcome)
        && update.events@.len() == 0 && stands_still(update.clock, clock, now)
    &&& steps[1] matches Step::Publish { topic, frame } && {
        &&& frame.status == GameStatus::Finished(outcome)
        &&& frame.view@ == seen
        &&& frame.ply == ply
        &&& stands_still(frame.clock, clock, now)
        &&& topic@ == "game:"@ + ids::hyphenated(game_id.0) + ":spectator"@
    }
    &&& !persisted ==> steps[2] == Step::Finish(outcome) && steps[3] == Step::Notify(outcome)
}

proof fn timeout_steps_announce(
    state: ActorState,
    side: Color,
    seen: JsonView,
    now: int,
    steps: Seq<Step>,
    outcome: Outcome,
)
    requires
        actor::steps_view(steps) == state.timeout_steps(side, seen, now),
        outcome == actor::lost_on_time(side),
    ensures
        announces(
            steps,
            state.game_id,
            state.ply,
            seen,
            state.persisted,
            outcome,
            state.clock,
            now,
        ),
{
    let seen_steps = actor::steps_view(steps);
    assert(seen_steps.len() == steps.len());
    assert(seen_steps[0] == steps[0]@);
    assert(seen_steps[1] == steps[1]@);
    if !state.persisted {
        assert(seen_steps[2] == steps[2]@);
        assert(seen_steps[3] == steps[3]@);
    }
    let update = steps[0]->Broadcast_0;
    assert(payload::events_view(update.events@).len() == update.events@.len());
}

/// Whoever runs out of time loses, and the opponent wins. When the timer goes off and the
/// running side's time is up, the game ends with the other side as the winner, on time:
/// that outcome is told to everyone, stored, and reported from then on. Before that
/// instant the timer does nothing.
pub proof fn running_out_of_time_loses<S: GameSession + ?Sized>(
    live: &mut GameActor<S>,
    before: GameActor<S>,
    after: GameActor<S>,
    side: Color,
    since: int,
    due: int,
    now: Timestamp,
    steps: Vec<Step>,
    status: GameStatus,
    outcome: Option<Outcome>,
    player: Color,
    actions: Vec<Action>,
)
    requires
        before == *old(live),
        after == *final(live),
        call_ensures(GameActor::<S>::on_timer, (live, now), steps),
        call_ensures(GameActor::<S>::status, (&after,), status),
        call_ensures(GameActor::<S>::outcome, (&after,), outcome),
        call_ensures(GameActor::<S>::legal_actions, (&after, player), actions),
        before@.timed_out is None,
        time_is_up_at(before@.clock, side, since, due),
    ensures
        after.session() == before.session(),
        due <= now@ ==> {
            &&& outcome matches Some(o) && {
                &&& o.reason == EndReason::Timeout
                &&& o.winner matches Some(winner) && winner != side
                &&& status == GameStatus::Finished(o)
                &&& after@.timed_out == Some(o)
                &&& announces(
                    steps@,
                    before@.game_id,
                    before@.ply,
                    before.session().seen_by_spectators(),
                    before@.persisted,
                    o,
                    before@.clock,
                    now@,
                )
            }
            &&& actions@.len() == 0
            &&& after@.ply == before@.ply && after@.game_id == before@.game_id
            &&& after@.persisted == before@.persisted
        },
        since < due && now@ < due ==> steps@.len() == 0 && after@ == before@,
{
    if due <= now@ {
        timeout_steps_announce(
            before@,
            side,
            before.session().seen_by_spectators(),
            now@,
            steps@,
            actor::lost_on_time(side),
        );
    }
}

/// While no clock runs the timer does nothing: without a limit nobody can lose on time.
pub proof fn without_a_running_clock_nobody_loses<S: GameSession + ?Sized>(
    live: &mut GameActor<S>,
    now: Timestamp,
    steps: Vec<Step>,
)
    requires
        call_ensures(GameActor::<S>::on_timer, (live, now), steps),
        old(live)@.clock is Unlimited || old(live)@.clock.ticking() is None,
    ensures
        steps@.len() == 0,
        final(live)@ == old(live)@,
        final(live).session() == old(live).session(),
{
}

/// A move that comes after its time is up is too late: whoever submits it, the game ends
/// with the side whose time is up as the loser, the action is refused, and the session
/// never sees it.
pub proof fn a_late_move_loses<S: GameSession + ?Sized>(
    live: &mut GameActor<S>,
    before: GameActor<S>,
    after: GameActor<S>,
    player: Color,
    action: &Action,
    side: Color,
    since: int,
    due: int,
    now: Timestamp,
    turn: Turn,
)
    requires
        before == *old(live),
        after == *final(live),
        call_ensures(GameActor::<S>::submit_action, (live, player, action, now), turn),
        before@.timed_out is None,
        time_is_up_at(before@.clock, side, since, due),
        due <= now@,
    ensures
        turn.reply == Err::<ActionEffect, GameSessionError>(
            GameSessionError::Game(GameError::Finished),
        ),
        after.session() == before.session(),
        after@.ply == before@.ply,
        after@.timed_out matches Some(o) && {
            &&& o.reason == EndReason::Timeout
            &&& o.winner matches Some(winner) && winner != side
            &&& announces(
                turn.steps@,
                before@.game_id,
                before@.ply,
                before.session().seen_by_spectators(),
                before@.persisted,
                o,
                before@.clock,
                now@,
            )
        },
{
    timeout_steps_announce(
        before@,
        side,
        before.session().seen_by_spectators(),
        now@,
        turn.steps@,
        actor::lost_on_time(side),
    );
}

/// Once a game ended on time nothing happens in it any more: every action is refused as
/// finished, no timer does anything, and the outcome stays.
pub proof fn a_game_ended_on_time_stays_ended<S: GameSession + ?Sized>(
    live: &mut GameActor<S>,
    rung: &mut GameActor<S>,
    player: Color,
    action: &Action,
    now: Timestamp,
    turn: Turn,
    steps: Vec<Step>,
)
    requires
        old(live)@.timed_out is Some,
        old(rung)@.timed_out is Some,
        call_ensures(GameActor::<S>::submit_action, (live, player, action, now), turn),
        call_ensures(GameActor::<S>::on_timer, (rung, now), steps),
    ensures
        turn.reply == Err::<ActionEffect, GameSessionError>(
            GameSessionError::Game(GameError::Finished),
        ),
        turn.steps@.len() == 0,
        steps@.len() == 0,
        final(live)@ == old(live)@ && final(live).session() == old(live).session(),
        final(rung)@ == old(rung)@ && final(rung).session() == old(rung).session(),
{
}

/// Whether `ms` is what is left of `nanos` in whole milliseconds.
pub open spec fn in_whole_millis(ms: Option<u64>, nanos: nat) -> bool {
    &&& ms is Some
    &&& nanos / 1_000_000 <= u64::MAX ==> ms->0 * 1_000_000 <= nanos < (ms->0 + 1) * 1_000_000
    &&& nanos / 1_000_000 > u64::MAX ==> ms->0 == u64::MAX
}

/// While nobody's time is up the session decides: what it answers is what the player is
/// told, and a refused action changes nothing and is told to nobody.
pub proof fn the_session_decides_in_time<S: GameSession + ?Sized>(
    live: &mut GameActor<S>,
    before: GameActor<S>,
    after: GameActor<S>,
    player: Color,
    action: &Action,
    side: Color,
    since: int,
    due: int,
    now: Timestamp,
    turn: Turn,
)
    requires
        before == *old(live),
        after == *final(live),
        call_ensures(GameActor::<S>::submit_action, (live, player, action, now), turn),
        before@.timed_out is None,
        before@.clock.ticking() is None || (time_is_up_at(before@.clock, side, since, due) && since
            < due && now@ < due),
    ensures
        match turn.reply {
            Ok(effect) => {
                &&& before.session().responds(player, action@, Ok(effect))
                &&& after.session().played() == before.session().played().push((player, action@))
                &&& effect.status == after.session().standing()
            },
            Err(e) => {
                &&& e matches GameSessionError::Game(refused) && before.session().responds(
                    player,
                    action@,
                    Err(refused),
                )
                &&& turn.steps@.len() == 0
                &&& after@ == before@
                &&& after.session().played() == before.session().played()
            },
        },
        before.session().standing() is Finished ==> turn.reply == Err::<
            ActionEffect,
            GameSessionError,
        >(GameSessionError::Game(GameError::Finished)),
        before.session().standing() is Ongoing && player != before.session().turn() ==> turn.reply
            == Err::<ActionEffect, GameSessionError>(GameSessionError::Game(GameError::NotYourTurn)),
{
}

/// What happens to an accepted action: everyone is told its events and the status after
/// it, spectators get the public view, it joins the log under the count before it, the
/// record is brought up to date with the count after it, and a game that it ended is
/// stored with the outcome it ended with and then announced.
pub proof fn an_accepted_action_is_told_logged_and_stored<S: GameSession + ?Sized>(
    live: &mut GameActor<S>,
    before: GameActor<S>,
    after: GameActor<S>,
    player: Color,
    action: &Action,
    now: Timestamp,
    turn: Turn,
    effect: ActionEffect,
)
    requires
        before == *old(live),
        after == *final(live),
        before@.ply < u32::MAX,
        call_ensures(GameActor::<S>::submit_action, (live, player, action, now), turn),
        turn.reply == Ok::<ActionEffect, GameSessionError>(effect),
    ensures
        after@.ply == before@.ply + 1,
        after@.game_id == before@.game_id && after@.persisted == before@.persisted
            && after@.timed_out is None,
        turn.steps@.len() >= 4,
        turn.steps@[0] matches Step::Broadcast(update) && update.status == effect.status
            && payload::events_view(update.events@) == payload::events_view(effect.events@),
        turn.steps@[1] matches Step::Publish { topic, frame } && {
            &&& frame.status == effect.status
            &&& frame.view@ == after.session().seen_by_spectators()
            &&& frame.ply == before@.ply + 1
            &&& topic@ == "game:"@ + ids::hyphenated(before@.game_id.0) + ":spectator"@
        },
        turn.steps@[2] matches Step::Append(entry) && entry.ply == before@.ply && entry.player
            == player && entry.action@ == action@,
        turn.steps@[3] matches Step::SaveSnapshot(snapshot) && {
            &&& snapshot.ply == before@.ply + 1
            &&& effect.status is Finished ==> snapshot.side_to_move is None
            &&& effect.status is Ongoing ==> snapshot.side_to_move == Some(after.session().turn())
        },
        effect.status is Ongoing ==> turn.steps@.len() == 4,
        effect.status matches GameStatus::Finished(outcome) ==> if before@.persisted {
            turn.steps@.len() == 4
        } else {
            &&& turn.steps@.len() == 6
            &&& turn.steps@[4] == Step::Finish(outcome)
            &&& turn.steps@[5] == Step::Notify(outcome)
        },
{
    let steps = turn.steps@;
    let seen = actor::steps_view(steps);
    assert(seen.len() == steps.len());
    assert(seen[0] == steps[0]@);
    assert(seen[1] == steps[1]@);
    assert(seen[2] == steps[2]@);
    assert(seen[3] == steps[3]@);
    if effect.status is Finished && !before@.persisted {
        assert(seen.len() == 6);
        assert(seen[4] == steps[4]@);
        assert(seen[5] == steps[5]@);
    }
}

/// Which clocks go with an accepted action: the budgets after the move, with the
/// opponent's clock running from now on unless the game is over, are shown to everyone,
/// and their whole milliseconds are logged and stored. A game without a limit shows and
/// stores no clocks.
pub proof fn an_accepted_action_carries_the_clocks<S: GameSession + ?Sized>(
    live: &mut GameActor<S>,
    before: GameActor<S>,
    after: GameActor<S>,
    player: Color,
    action: &Action,
    now: Timestamp,
    turn: Turn,
    effect: ActionEffect,
)
    requires
        before == *old(live),
        after == *final(live),
        before@.ply < u32::MAX,
        call_ensures(GameActor::<S>::submit_action, (live, player, action, now), turn),
        turn.reply == Ok::<ActionEffect, GameSessionError>(effect),
    ensures
        ({
            let moved = before@.clock.after_move(player, now@);
            let told = turn.steps@[0]->Broadcast_0.clock;
            let shown = turn.steps@[1]->frame.clock;
            let entry = turn.steps@[2]->Append_0;
            let stored = turn.steps@[3]->SaveSnapshot_0;
            &&& effect.status is Ongoing ==> after@.clock == moved
            &&& effect.status is Finished ==> after@.clock == moved.with_ticking(None)
            &&& before@.clock is Unlimited ==> {
                &&& told is None && shown is None
                &&& entry.clock_white_ms is None && entry.clock_black_ms is None
                &&& stored.clock_white_ms is None && stored.clock_black_ms is None
            }
            &&& !(before@.clock is Unlimited) ==> {
                &&& told matches Some(c) && c.white_remaining@ == moved.remaining(
                    Color::White,
                    now@,
                ) && c.black_remaining@ == moved.remaining(Color::Black, now@) && if effect.status
                    is Finished {
                    c.turn_started_at is None
                } else {
                    c.turn_started_at matches Some(t) && t@ == now@
                }
                &&& shown matches Some(c) && c.white_remaining@ == moved.remaining(
                    Color::White,
                    now@,
                ) && c.black_remaining@ == moved.remaining(Color::Black, now@) && if effect.status
                    is Finished {
                    c.turn_started_at is None
                } else {
                    c.turn_started_at matches Some(t) && t@ == now@
                }
                &&& in_whole_millis(entry.clock_white_ms, moved.remaining(Color::White, now@))
                &&& in_whole_millis(entry.clock_black_ms, moved.remaining(Color::Black, now@))
                &&& stored.clock_white_ms == entry.clock_white_ms
                &&& stored.clock_black_ms == entry.clock_black_ms
            }
        }),
{
    let steps = turn.steps@;
    let seen = actor::steps_view(steps);
    assert(seen.len() == steps.len());
    assert(seen[0] == steps[0]@);
    assert(seen[1] == steps[1]@);
    assert(seen[2] == steps[2]@);
    assert(seen[3] == steps[3]@);
}

/// An action that comes as a request is submitted like any other.
pub proof fn requested_actions_are_submitted<S: GameSession + ?Sized>(
    live: &mut GameActor<S>,
    before: GameActor<S>,
    after: GameActor<S>,
    player: Color,
    action: Action,
    now: Timestamp,
    reply: Reply,
)
    requires
        before == *old(live),
        after == *final(live),
        call_ensures(
            GameActor::<S>::handle,
            (live, Command::SubmitAction { player, action }, now),
            reply,
        ),
    ensures
        reply matches Reply::Submitted(turn) && actor::submit_contract(
            before,
            after,
            player,
            action@,
            now@,
            turn,
        ),
{
}

/// What a question is answered with: the session's own answer, except that a game that
/// ended on time is reported as ended and offers nothing. Asking changes nothing.
pub proof fn questions_are_answered_by_the_session<S: GameSession + ?Sized>(
    live: &mut GameActor<S>,
    before: GameActor<S>,
    command: Command,
    now: Timestamp,
    reply: Reply,
)
    requires
        before == *old(live),
        call_ensures(GameActor::<S>::handle, (live, command, now), reply),
        !(command is SubmitAction),
    ensures
        *final(live) == before,
        command matches Command::ViewFor { player } ==> reply matches Reply::View(v) && v@
            == before.session().seen_by(player),
        command is SpectatorView ==> (reply matches Reply::View(v) && v@
            == before.session().seen_by_spectators()),
        command matches Command::LegalActions { player } ==> reply matches Reply::Actions(a) && (
        before@.timed_out is Some ==> a@.len() == 0) && (before@.timed_out is None
            ==> payload::actions_view(a@) == before.session().choices(player)),
        command is Status ==> (reply matches Reply::Status(s) && (before@.timed_out matches Some(o)
            ==> s == GameStatus::Finished(o)) && (before@.timed_out is None ==> s
            == before.session().standing())),
        command is Outcome ==> (reply matches Reply::Outcome(r) && (before@.timed_out is Some ==> r
            == before@.timed_out) && (before@.timed_out is None ==> r == before.session().result())),
{
    if let Command::LegalActions { player } = command {
        let a = reply->Actions_0;
        assert(payload::actions_view(a@).len() == a@.len());
    }
}

/// Each way of asking gives the same: the views, offers, status and outcome that a game
/// answers with are those it hands out directly, each player's view for that player.
pub proof fn views_go_to_whom_they_are_for<S: GameSession + ?Sized>(
    live: GameActor<S>,
    player: Color,
    mine: PlayerView,
    public: PlayerView,
    offered: Vec<Action>,
    status: GameStatus,
    outcome: Option<Outcome>,
)
    requires
        call_ensures(GameActor::<S>::view_for, (&live, player), mine),
        call_ensures(GameActor::<S>::spectator_view, (&live,), public),
        call_ensures(GameActor::<S>::legal_actions, (&live, player), offered),
        call_ensures(GameActor::<S>::status, (&live,), status),
        call_ensures(GameActor::<S>::outcome, (&live,), outcome),
    ensures
        mine@ == live.session().seen_by(player),
        public@ == live.session().seen_by_spectators(),
        live@.timed_out is None ==> payload::actions_view(offered@) == live.session().choices(
            player,
        ) && status == live.session().standing() && outcome == live.session().result(),
        live@.timed_out matches Some(o) ==> offered@.len() == 0 && status == GameStatus::Finished(o)
            && outcome == Some(o),
        status is Finished <==> outcome is Some,
{
    assert(payload::actions_view(offered@).len() == offered@.len());
}

/// Whether the clock has what `time_control` grants with these budgets, and runs for
/// `turn` from `now` on, or not at all in a game that is over.
pub open spec fn runs_as_agreed(
    clock: ClockState,
    time_control: TimeControl,
    white: nat,
    black: nat,
    turn: Color,
    over: bool,
    now: int,
) -> bool {
    match time_control {
        TimeControl::RealTime { increment, .. } => clock == (ClockState::RealTime {
            white,
            black,
            increment: increment@,
            ticking: if over {
                None
            } else {
                Some((turn, now))
            },
        }),
        TimeControl::Correspondence { days_per_move } => clock == (ClockState::Correspondence {
            per_move: (days_per_move * 24 * 60 * 60 * 1_000_000_000) as nat,
            ticking: if over {
                None
            } else {
                Some((turn, now))
            },
        }),
        TimeControl::Unlimited => clock is Unlimited,
    }
}

/// A game that is taken over fresh has played nothing, and the side to move has its whole
/// time from that instant on: it will be woken when that time is up.
pub proof fn a_fresh_game_starts_with_full_clocks<S: GameSession + ?Sized>(
    game_id: GameId,
    session: Box<S>,
    time_control: TimeControl,
    now: Timestamp,
    live: GameActor<S>,
    wake: Option<Timestamp>,
    id: GameId,
    ply: u32,
)
    requires
        call_ensures(GameActor::<S>::new, (game_id, session, &time_control, now), live),
        call_ensures(GameActor::<S>::wake_at, (&live,), wake),
        call_ensures(GameActor::<S>::game_id, (&live,), id),
        call_ensures(GameActor::<S>::ply, (&live,), ply),
    ensures
        live.session() == session,
        id == game_id && live@.game_id == game_id,
        ply == 0 && live@.ply == 0,
        !live@.persisted && live@.timed_out is None,
        time_control matches TimeControl::RealTime { initial, .. } ==> runs_as_agreed(
            live@.clock,
            time_control,
            initial@,
            initial@,
            session.turn(),
            session.standing() is Finished,
            now@,
        ),
        !(time_control is RealTime) ==> runs_as_agreed(
            live@.clock,
            time_control,
            0,
            0,
            session.turn(),
            session.standing() is Finished,
            now@,
        ),
        session.standing() is Finished || time_control is Unlimited ==> wake is None,
        session.standing() is Ongoing ==> match time_control {
            TimeControl::RealTime { initial, .. } => wakes_when_up(wake, now@ + initial@),
            TimeControl::Correspondence { days_per_move } => wakes_when_up(
                wake,
                now@ + days_per_move * 24 * 60 * 60 * 1_000_000_000,
            ),
            TimeControl::Unlimited => wake is None,
        },
{
}

/// Whether the alarm is set for the instant `due`, if the calendar has it.
pub open spec fn wakes_when_up(wake: Option<Timestamp>, due: int) -> bool {
    if due <= 253_402_300_799_999_999_999 {
        wake matches Some(t) && t@ == due
    } else {
        wake is None
    }
}

/// A game that is taken up again goes on at its count with its budgets, and the time it
/// lay idle is charged to nobody.
pub proof fn a_game_taken_up_again_goes_on<S: GameSession + ?Sized>(
    game_id: GameId,
    session: Box<S>,
    time_control: TimeControl,
    ply: u32,
    remaining: ClockRemaining,
    now: Timestamp,
    live: GameActor<S>,
    wake: Option<Timestamp>,
)
    requires
        call_ensures(
            GameActor::<S>::resumed,
            (game_id, session, &time_control, ply, remaining, now),
            live,
        ),
        call_ensures(GameActor::<S>::wake_at, (&live,), wake),
    ensures
        live.session() == session,
        live@.game_id == game_id && live@.ply == ply,
        !live@.persisted && live@.timed_out is None,
        runs_as_agreed(
            live@.clock,
            time_control,
            remaining.white@,
            remaining.black@,
            session.turn(),
            session.standing() is Finished,
            now@,
        ),
        session.standing() is Finished || time_control is Unlimited ==> wake is None,
        session.standing() is Ongoing ==> match time_control {
            TimeControl::RealTime { .. } => wakes_when_up(
                wake,
                now@ + if session.turn() == Color::White {
                    remaining.white@
                } else {
                    remaining.black@
                },
            ),
            TimeControl::Correspondence { days_per_move } => wakes_when_up(
                wake,
                now@ + days_per_move * 24 * 60 * 60 * 1_000_000_000,
            ),
            TimeControl::Unlimited => wake is None,
        },
{
}

/// The alarm is set for the instant at which the running side's time is up.
pub proof fn the_alarm_is_set_for_the_flag<S: GameSession + ?Sized>(
    live: GameActor<S>,
    side: Color,
    since: int,
    due: int,
    wake: Option<Timestamp>,
)
    requires
        call_ensures(GameActor::<S>::wake_at, (&live,), wake),
    ensures
        time_is_up_at(live@.clock, side, since, due) ==> wakes_when_up(wake, due),
        live@.clock.ticking() is None ==> wake is None,
{
}

/// Noting that the game was stored notes that and nothing else.
pub proof fn storing_is_noted<S: GameSession + ?Sized>(live: &mut GameActor<S>)
    requires
        call_ensures(GameActor::<S>::mark_persisted, (live,), ()),
    ensures
        final(live)@.persisted,
        final(live)@.game_id == old(live)@.game_id,
        final(live)@.ply == old(live)@.ply,
        final(live)@.clock == old(live)@.clock,
        final(live)@.timed_out == old(live)@.timed_out,
        final(live).session() == old(live).session(),
{
}

/// A player is told of a storage failure if there was one, and otherwise what the game
/// answered.
pub proof fn storage_failures_come_first(
    reply: Result<ActionEffect, GameSessionError>,
    failure: Option<StorageError>,
    r: Result<ActionEffect, GameSessionError>,
)
    requires
        call_ensures(actor::settle, (reply, failure), r),
    ensures
        failure matches Some(e) ==> r == Err::<ActionEffect, GameSessionError>(
            GameSessionError::Storage(e),
        ),
        failure is None ==> r == reply,
{
}

/// A record brought up to date has the snapshot's count, clocks and side to move, and
/// keeps everything else.
pub proof fn a_snapshot_touches_only_the_live_state(
    snapshot: Snapshot,
    game: &mut Game,
    now: Timestamp,
)
    requires
        call_ensures(Snapshot::write_to, (&snapshot, game, now), ()),
    ensures
        final(game).ply == snapshot.ply,
        final(game).clock_white_ms == snapshot.clock_white_ms,
        final(game).clock_black_ms == snapshot.clock_black_ms,
        final(game).side_to_move == snapshot.side_to_move,
        final(game).updated_at == now,
        final(game).id == old(game).id,
        final(game).variant_id == old(game).variant_id,
        final(game).variant_options == old(game).variant_options,
        final(game).white == old(game).white && final(game).black == old(game).black,
        final(game).lifecycle == old(game).lifecycle,
        final(game).outcome == old(game).outcome,
        final(game).time_control == old(game).time_control,
        final(game).created_at == old(game).created_at,
{
}

/// Stored milliseconds are read back as that many; a clock that was not stored is empty.
pub proof fn stored_clocks_are_read_back(
    white: Option<u64>,
    black: Option<u64>,
    r: ClockRemaining,
)
    requires
        call_ensures(ClockRemaining::from_millis, (white, black), r),
    ensures
        white matches Some(ms) ==> r.white@ == ms * 1_000_000,
        black matches Some(ms) ==> r.black@ == ms * 1_000_000,
        white is None ==> r.white@ == 0,
        black is None ==> r.black@ == 0,
{
}

} // verus!
