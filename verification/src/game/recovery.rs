//! Rebuilding a live game from its stored record and action log.
//!
//! A fresh session of the game's variant is created, every logged action is
//! applied to it in order, and an actor takes the game up again with the stored
//! number of half-moves and clocks.

use vstd::prelude::*;

use crate::domain::game::Game;
use crate::domain::time_control::TimeControl;
use crate::game::actor;
use crate::game::actor_laws;
use crate::game::actor::{ActorState, ClockRemaining, GameActor, Snapshot, Step, StepView, Turn};
use crate::game::clock::ClockState;
use crate::game::storage::{RecordedAction, StorageError};
use crate::text;
use crate::time::Timestamp;
use crate::variant::color::Color;
use crate::variant::error::GameError;
use crate::variant::json::JsonView;
use crate::variant::registry::VariantRegistry;
use crate::variant::session::GameSession;
use crate::variant::status::{ActionEffect, EffectView, GameStatus, Outcome};

verus! {

/// Why a game could not be rebuilt.
#[derive(Debug, PartialEq, Eq)]
pub enum RecoveryError {
    /// No session of the game's variant could be created.
    Session { variant_id: String, source: GameError },
    /// The action log could not be read.
    Log(StorageError),
    /// A logged action was refused by the rebuilt session.
    Replay { ply: u32, source: GameError },
}

impl RecoveryError {
    /// The text shown for the error.
    pub open spec fn message(self) -> Seq<char> {
        match self {
            RecoveryError::Session { variant_id, source } => {
                "cannot create a session for variant "@ + text::debug_quoted(variant_id@) + ": "@
                    + source.message()
            },
            RecoveryError::Log(e) => "cannot read the action log: "@ + e.message(),
            RecoveryError::Replay { ply, source } => {
                "replay diverged at ply "@ + text::decimal_digits(ply as nat)
                    + ": the recorded action was rejected by the rebuilt session: "@
                    + source.message()
            },
        }
    }

    /// Renders the error.
    pub fn to_string(&self) -> (r: String)
        ensures
            r@ == self.message(),
    {
        match self {
            RecoveryError::Session { variant_id, source } => {
                let quoted = text::quote_debug(variant_id.as_str());
                let head = text::join3("cannot create a session for variant ", quoted.as_str(), ": ");
                text::join2(head.as_str(), source.to_string().as_str())
            },
            RecoveryError::Log(e) => text::join2(
                "cannot read the action log: ",
                e.to_string().as_str(),
            ),
            RecoveryError::Replay { ply, source } => {
                let at = text::decimal(*ply as u64);
                let head = text::join3(
                    "replay diverged at ply ",
                    at.as_str(),
                    ": the recorded action was rejected by the rebuilt session: ",
                );
                text::join2(head.as_str(), source.to_string().as_str())
            },
        }
    }
}

/// The logged actions with their players.
pub open spec fn logged(recorded: Seq<RecordedAction>) -> Seq<(Color, JsonView)> {
    Seq::new(recorded.len(), |i: int| (recorded[i].player, recorded[i].action@))
}

/// Whether `e` reports that the `i`-th logged action was the first to be refused,
/// by a game that began as `fresh` and had played the actions before it.
pub open spec fn refused_at<S: GameSession + ?Sized>(
    e: RecoveryError,
    fresh: Box<S>,
    recorded: Seq<RecordedAction>,
    i: int,
) -> bool {
    &&& 0 <= i < recorded.len()
    &&& e matches RecoveryError::Replay { ply, source } && ply == recorded[i].ply && exists|
        s: Box<S>,
    |
        origin(s) == origin(fresh) && s.played() == fresh.played() + logged(recorded).take(i)
            && #[trigger] s.responds(recorded[i].player, recorded[i].action@, Err(source))
}

/// Whether `e` reports the first logged action that was refused, by a game that
/// began as `fresh`.
pub open spec fn replay_refused<S: GameSession + ?Sized>(
    e: RecoveryError,
    fresh: Box<S>,
    recorded: Seq<RecordedAction>,
) -> bool {
    exists|i: int| #[trigger] refused_at(e, fresh, recorded, i)
}

/// What a session was created from: its variant and the options.
pub open spec fn origin<S: GameSession + ?Sized>(session: Box<S>) -> (Seq<char>, JsonView) {
    (session.variant_name(), session.setup())
}

/// Applies the logged actions in order, and reports the first that is refused.
pub fn replay<S: GameSession + ?Sized>(session: &mut Box<S>, recorded: &Vec<RecordedAction>) -> (r:
    Result<(), RecoveryError>)
    ensures
        origin(*final(session)) == origin(*old(session)),
        match r {
            Ok(_) => final(session).played() == old(session).played() + logged(recorded@),
            Err(e) => exists|i: int|
                {
                    &&& #[trigger] refused_at::<S>(e, *old(session), recorded@, i)
                    &&& final(session).played() == old(session).played() + logged(recorded@).take(i)
                },
        },
        recorded@.len() == 0 ==> r is Ok,
{
    let ghost fresh: Box<S> = *session;
    let ghost all: Seq<(Color, JsonView)> = logged(recorded@);
    let mut i: usize = 0;
    assert(fresh.played() + all.take(0) =~= fresh.played());
    while i < recorded.len()
        invariant
            i <= recorded@.len(),
            all == logged(recorded@),
            fresh == *old(session),
            origin(*session) == origin(fresh),
            session.played() == fresh.played() + all.take(i as int),
        decreases recorded@.len() - i,
    {
        let ghost reached: Box<S> = *session;
        let player = recorded[i].player;
        match session.apply(player, &recorded[i].action) {
            Ok(_) => {},
            Err(source) => {
                assert(reached.responds(
                    recorded@[i as int].player,
                    recorded@[i as int].action@,
                    Err(source),
                ));
                let refusal = RecoveryError::Replay { ply: recorded[i].ply, source };
                assert(refused_at::<S>(refusal, fresh, recorded@, i as int));
                return Err(refusal);
            },
        }
        assert(fresh.played() + all.take(i + 1) =~= (fresh.played() + all.take(i as int)).push(
            all[i as int],
        ));
        i = i + 1;
    }
    assert(all.take(all.len() as int) =~= all);
    Ok(())
}

/// Each side's time to take a game up again with, in nanoseconds, White first:
/// the stored clocks when there is one, the full budget of a real-time game that
/// has none yet, and nothing for games whose clocks do not drain.
pub open spec fn resumed_times(game: Game) -> (nat, nat) {
    if game.clock_white_ms is Some || game.clock_black_ms is Some {
        (
            actor::stored_millis(game.clock_white_ms) * 1_000_000,
            actor::stored_millis(game.clock_black_ms) * 1_000_000,
        )
    } else {
        match game.time_control {
            TimeControl::RealTime { initial, .. } => (initial@, initial@),
            _ => (0, 0),
        }
    }
}

/// Determines each side's time to take `game` up again with.
pub fn resume_clock(game: &Game) -> (r: ClockRemaining)
    ensures
        (r.white@, r.black@) == resumed_times(*game),
{
    if game.clock_white_ms.is_some() || game.clock_black_ms.is_some() {
        ClockRemaining::from_millis(game.clock_white_ms, game.clock_black_ms)
    } else {
        match game.time_control {
            TimeControl::RealTime { initial, .. } => ClockRemaining {
                white: initial,
                black: initial,
            },
            _ => ClockRemaining::from_millis(None, None),
        }
    }
}

/// The state of the actor that takes a stored game up again at `now` with `turn`
/// to move: no clock runs in a game that is over.
pub open spec fn resumed_state(
    game: Game,
    turn: Color,
    standing: GameStatus,
    now: int,
) -> ActorState {
    let ticking = actor::started_clock(turn, standing, now);
    ActorState {
        game_id: game.id,
        clock: match game.time_control {
            TimeControl::RealTime { increment, .. } => {
                let (white, black) = resumed_times(game);
                ClockState::RealTime {
                    white,
                    black,
                    increment: increment@,
                    ticking,
                }
            },
            _ => ClockState::fresh(game.time_control).with_ticking(ticking),
        },
        ply: game.ply,
        persisted: false,
        timed_out: None,
    }
}

/// Rebuilds the actor of a stored game at `now`, given what creating a session of
/// its variant and reading its action log gave.
///
/// The rebuilt session has played exactly the logged actions, the half-moves
/// continue at the stored count and each clock at its stored time, and the time
/// the game lay idle is charged to nobody.
pub fn recover_with<S: GameSession + ?Sized>(
    game: &Game,
    created: Result<Box<S>, GameError>,
    log: Result<Vec<RecordedAction>, StorageError>,
    now: Timestamp,
) -> (r: Result<GameActor<S>, RecoveryError>)
    ensures
        match (created, log) {
            (Err(source), _) => r matches Err(e) && e == (RecoveryError::Session {
                variant_id: game.variant_id,
                source,
            }),
            (Ok(_), Err(e)) => r matches Err(f) && f == RecoveryError::Log(e),
            (Ok(session), Ok(recorded)) => match r {
                Ok(actor) => {
                    &&& actor.session().played() == session.played() + logged(recorded@)
                    &&& origin(actor.session()) == origin(session)
                    &&& actor@ == resumed_state(
                        *game,
                        actor.session().turn(),
                        actor.session().standing(),
                        now@,
                    )
                },
                Err(e) => replay_refused(e, session, recorded@),
            },
        },
        created is Ok && log is Ok && log->Ok_0@.len() == 0 ==> r is Ok,
{
    let mut session = match created {
        Ok(session) => session,
        Err(source) => {
            return Err(RecoveryError::Session { variant_id: game.variant_id.clone(), source });
        },
    };
    let recorded = match log {
        Ok(recorded) => recorded,
        Err(e) => {
            return Err(RecoveryError::Log(e));
        },
    };
    match replay(&mut session, &recorded) {
        Ok(_) => {},
        Err(e) => {
            return Err(e);
        },
    }
    let actor = GameActor::resumed(
        game.id,
        session,
        &game.time_control,
        game.ply,
        resume_clock(game),
        now,
    );
    Ok(actor)
}

/// What [`recover_game`] gives for a stored game.
pub open spec fn recover_contract(
    game: Game,
    registry: VariantRegistry,
    log: Result<Vec<RecordedAction>, StorageError>,
    now: int,
    r: Result<GameActor<dyn GameSession>, RecoveryError>,
) -> bool {
    match registry.registered(game.variant_id@) {
        None => r matches Err(RecoveryError::Session { variant_id, source }) && variant_id
            == game.variant_id && (source matches GameError::UnknownVariant(s) && s@
            == game.variant_id@),
        Some(factory) => match r {
            Ok(actor) => {
                &&& log is Ok
                &&& exists|fresh: Result<Box<dyn GameSession>, GameError>|
                    fresh is Ok && #[trigger] factory.answers(game.variant_options@, fresh)
                &&& actor.session().variant_name() == factory.ident()
                &&& actor.session().setup() == game.variant_options@
                &&& actor.session().played() == logged(log->Ok_0@)
                &&& actor@ == resumed_state(
                    game,
                    actor.session().turn(),
                    actor.session().standing(),
                    now,
                )
            },
            Err(RecoveryError::Session { variant_id, source }) => {
                &&& variant_id == game.variant_id
                &&& factory.answers(game.variant_options@, Err(source))
            },
            Err(RecoveryError::Log(e)) => {
                &&& log == Err::<Vec<RecordedAction>, StorageError>(e)
                &&& exists|fresh: Result<Box<dyn GameSession>, GameError>|
                    fresh is Ok && #[trigger] factory.answers(game.variant_options@, fresh)
            },
            Err(e) => log is Ok && exists|fresh: Result<Box<dyn GameSession>, GameError>|
                {
                    &&& fresh is Ok
                    &&& #[trigger] factory.answers(game.variant_options@, fresh)
                    &&& replay_refused(e, fresh->Ok_0, log->Ok_0@)
                    &&& fresh->Ok_0.variant_name() == factory.ident()
                    &&& fresh->Ok_0.setup() == game.variant_options@
                    &&& fresh->Ok_0.played() == Seq::<(Color, JsonView)>::empty()
                },
        },
    }
}

/// Rebuilds the actor of a stored game at `now` from what reading its action log
/// gave: the factory registered for the game's variant creates a session with the
/// game's options, and the logged actions are applied to it.
pub fn recover_game(
    game: &Game,
    registry: &VariantRegistry,
    log: Result<Vec<RecordedAction>, StorageError>,
    now: Timestamp,
) -> (r: Result<GameActor<dyn GameSession>, RecoveryError>)
    ensures
        recover_contract(*game, *registry, log, now@, r),
{
    let created = registry.new_game(game.variant_id.as_str(), &game.variant_options);
    let ghost answered = created;
    let recovered = recover_with(game, created, log, now);
    proof {
        if recovered is Ok {
            assert(Seq::<(Color, JsonView)>::empty() + logged(log->Ok_0@) =~= logged(log->Ok_0@));
        }
        if registry.registered(game.variant_id@) is Some {
            assert(registry.registered(game.variant_id@)->0.answers(
                game.variant_options@,
                answered,
            ));
        }
        if answered is Ok && log is Ok && recovered is Err {
            assert(replay_refused(recovered->Err_0, answered->Ok_0, log->Ok_0@));
        }
    }
    recovered
}

/// Whether the `i`-th logged action was accepted by a game of this origin that had
/// played the actions before it.
pub open spec fn accepted_at<S: GameSession + ?Sized>(
    from: (Seq<char>, JsonView),
    log: Seq<RecordedAction>,
    i: int,
) -> bool {
    exists|s: Box<S>, effect: ActionEffect|
        origin(s) == from && s.played() == logged(log).take(i) && #[trigger] s.responds(
            log[i].player,
            log[i].action@,
            Ok(effect),
        )
}

/// Whether every logged action was accepted in its turn by a game of this origin.
pub open spec fn accepted<S: GameSession + ?Sized>(
    from: (Seq<char>, JsonView),
    log: Seq<RecordedAction>,
) -> bool {
    forall|i: int| 0 <= i < log.len() ==> #[trigger] accepted_at::<S>(from, log, i)
}

/// What a session shows and offers everyone.
pub struct Face {
    /// The side to move.
    pub turn: Color,
    /// Where the game is in its life.
    pub standing: GameStatus,
    /// How the game ended.
    pub result: Option<Outcome>,
    /// What White may observe.
    pub seen_by_white: JsonView,
    /// What Black may observe.
    pub seen_by_black: JsonView,
    /// What spectators may observe.
    pub seen_by_spectators: JsonView,
    /// What White may do.
    pub open_to_white: Seq<JsonView>,
    /// What Black may do.
    pub open_to_black: Seq<JsonView>,
}

/// What a session shows and offers everyone.
pub open spec fn face<S: GameSession + ?Sized>(session: Box<S>) -> Face {
    Face {
        turn: session.turn(),
        standing: session.standing(),
        result: session.result(),
        seen_by_white: session.seen_by(Color::White),
        seen_by_black: session.seen_by(Color::Black),
        seen_by_spectators: session.seen_by_spectators(),
        open_to_white: session.choices(Color::White),
        open_to_black: session.choices(Color::Black),
    }
}

/// Whether the record of play decides everything about a game of one variant with
/// one set of options, as it does when nothing in that game is left to chance: what
/// it shows and how it answers.
pub open spec fn record_decides<S: GameSession + ?Sized>(from: (Seq<char>, JsonView)) -> bool {
    &&& forall|a: Box<S>, b: Box<S>|
        origin(a) == from && origin(b) == from && #[trigger] a.played()
            == #[trigger] b.played() ==> face(a) == face(b)
    &&& forall|
        a: Box<S>,
        b: Box<S>,
        player: Color,
        action: JsonView,
        x: Result<ActionEffect, GameError>,
        y: Result<ActionEffect, GameError>,
    |
        origin(a) == from && origin(b) == from && a.played() == b.played()
            && #[trigger] a.responds(player, action, x) && #[trigger] b.responds(
            player,
            action,
            y,
        ) ==> x == y
}

/// The log mirrors the record of the session: when the log held exactly what the
/// session had played, all of it accepted, it does so again once what an action
/// wants appended was appended. An accepted action wants one entry appended, a
/// refused one none.
pub proof fn the_log_mirrors_the_record<S: GameSession + ?Sized>(
    before: GameActor<S>,
    after: GameActor<S>,
    player: Color,
    action: JsonView,
    now: int,
    turn: Turn,
    log: Seq<RecordedAction>,
)
    requires
        before@.ply < u32::MAX,
        actor::submit_contract(before, after, player, action, now, turn),
        logged(log) == before.session().played(),
        accepted::<S>(origin(before.session()), log),
    ensures
        match turn.reply {
            Ok(_) => {
                &&& turn.steps@.len() > 2
                &&& turn.steps@[2] matches Step::Append(entry) && logged(log.push(entry))
                    == after.session().played() && accepted::<S>(
                    origin(after.session()),
                    log.push(entry),
                )
                &&& forall|i: int|
                    0 <= i < turn.steps@.len() && i != 2 ==> !(#[trigger] turn.steps@[i] is Append)
            },
            Err(_) => {
                &&& logged(log) == after.session().played()
                &&& accepted::<S>(origin(after.session()), log)
                &&& forall|i: int|
                    0 <= i < turn.steps@.len() ==> !(#[trigger] turn.steps@[i] is Append)
            },
        },
{
    let seen = actor::steps_view(turn.steps@);
    assert forall|i: int| 0 <= i < turn.steps@.len() && (turn.reply is Err || i != 2) implies !(
    #[trigger] turn.steps@[i] is Append) by {
        assert(turn.steps@[i]@ == seen[i]);
        actor::only_the_action_is_logged(
            before@,
            player,
            action,
            turn.reply->Ok_0@,
            after.session().turn(),
            if turn.reply is Ok {
                after.session().seen_by_spectators()
            } else {
                before.session().seen_by_spectators()
            },
            before@.clock.flagged(now)->0,
            now,
            i,
        );
    }
    if let Ok(effect) = turn.reply {
        assert(seen == before@.action_steps(
            player,
            action,
            effect@,
            after.session().turn(),
            after.session().seen_by_spectators(),
            now,
        ));
        assert(seen.len() > 2);
        assert(turn.steps@[2]@ == seen[2]);
        let entry = turn.steps@[2]->Append_0;
        let grown = log.push(entry);
        assert(logged(grown) =~= logged(log).push((player, action)));
        assert forall|i: int| 0 <= i < grown.len() implies #[trigger] accepted_at::<S>(
            origin(after.session()),
            grown,
            i,
        ) by {
            assert(logged(grown).take(i) =~= logged(log).take(i));
            if i < log.len() {
                assert(accepted_at::<S>(origin(before.session()), log, i));
            } else {
                assert(logged(log).take(i) =~= logged(log));
                assert(before.session().responds(player, action, Ok(effect)));
            }
        }
    }
}

/// An accepted log can be replayed: where the record decides the game, no action
/// that was accepted in its turn is refused when the log is replayed from a new game.
pub proof fn an_accepted_log_replays<S: GameSession + ?Sized>(
    e: RecoveryError,
    fresh: Box<S>,
    log: Seq<RecordedAction>,
)
    requires
        record_decides::<S>(origin(fresh)),
        fresh.played() == Seq::<(Color, JsonView)>::empty(),
        accepted::<S>(origin(fresh), log),
    ensures
        !replay_refused(e, fresh, log),
{
    assert forall|i: int| !(#[trigger] refused_at(e, fresh, log, i)) by {
        if refused_at(e, fresh, log, i) {
            assert(accepted_at::<S>(origin(fresh), log, i));
            let (s, effect) = choose|s: Box<S>, effect: ActionEffect|
                origin(s) == origin(fresh) && s.played() == logged(log).take(i)
                    && #[trigger] s.responds(log[i].player, log[i].action@, Ok(effect));
            let source = e->Replay_source;
            let t = choose|t: Box<S>|
                origin(t) == origin(fresh) && t.played() == fresh.played() + logged(log).take(i)
                    && #[trigger] t.responds(log[i].player, log[i].action@, Err(source));
            assert(fresh.played() + logged(log).take(i) =~= logged(log).take(i));
        }
    }
}

/// A restart changes nothing: a game that was lost while it went on is rebuilt from
/// its stored record and its log, and nobody can tell the rebuilt game from the lost
/// one. Views, offered actions, status, outcome and side to move are the same, every
/// action is answered the same, and the count goes on where it stopped.
///
/// The game's variant must still be registered and take the game's options, and the
/// record must decide games of that variant with those options; what other variants
/// leave to chance does not matter. What the log holds is
/// the subject of [`the_log_mirrors_the_record`], and what becomes of the clocks of
/// [`a_pause_costs_nobody_time`].
pub proof fn a_restart_changes_nothing(
    lost: GameActor<dyn GameSession>,
    game: Game,
    registry: VariantRegistry,
    log: Vec<RecordedAction>,
    now: int,
    r: Result<GameActor<dyn GameSession>, RecoveryError>,
)
    requires
        record_decides::<dyn GameSession>(origin(lost.session())),
        recover_contract(game, registry, Ok(log), now, r),
        registry.registered(game.variant_id@) is Some,
        registry.registered(game.variant_id@)->0.ident() == lost.session().variant_name(),
        forall|e: GameError|
            !(#[trigger] registry.registered(game.variant_id@)->0.answers(
                game.variant_options@,
                Err(e),
            )),
        lost.session().setup() == game.variant_options@,
        logged(log@) == lost.session().played(),
        accepted::<dyn GameSession>(origin(lost.session()), log@),
        lost@.timed_out is None,
        !lost@.persisted,
        game.id == lost@.game_id,
        game.ply == lost@.ply,
    ensures
        r matches Ok(rebuilt) && {
            &&& face(rebuilt.session()) == face(lost.session())
            &&& forall|
                player: Color,
                action: JsonView,
                x: Result<ActionEffect, GameError>,
                y: Result<ActionEffect, GameError>,
            |
                #[trigger] rebuilt.session().responds(player, action, x)
                    && #[trigger] lost.session().responds(player, action, y) ==> x == y
            &&& rebuilt.is_over() == lost.is_over()
            &&& rebuilt@ == (ActorState { clock: rebuilt@.clock, ..lost@ })
            &&& rebuilt@ == resumed_state(
                game,
                lost.session().turn(),
                lost.session().standing(),
                now,
            )
        },
{
    match r {
        Ok(rebuilt) => {
            assert(origin(rebuilt.session()) == origin(lost.session()));
            assert(rebuilt.session().played() == lost.session().played());
        },
        Err(RecoveryError::Replay { ply, source }) => {
            let e = r->Err_0;
            let factory = registry.registered(game.variant_id@)->0;
            let created = choose|fresh: Result<Box<dyn GameSession>, GameError>|
                {
                    &&& fresh is Ok
                    &&& #[trigger] factory.answers(game.variant_options@, fresh)
                    &&& replay_refused(e, fresh->Ok_0, log@)
                    &&& fresh->Ok_0.variant_name() == factory.ident()
                    &&& fresh->Ok_0.setup() == game.variant_options@
                    &&& fresh->Ok_0.played() == Seq::<(Color, JsonView)>::empty()
                };
            let fresh = created->Ok_0;
            assert(origin(fresh) == origin(lost.session()));
            an_accepted_log_replays(e, fresh, log@);
        },
        _ => {},
    }
}

/// A game whose log ends it keeps its result: taken up again, it has no running
/// clock, so that it is not lost on time at any later instant.
pub proof fn a_game_that_ended_keeps_its_result(
    game: Game,
    turn: Color,
    outcome: Outcome,
    now: int,
    later: int,
)
    ensures
        ({
            let resumed = resumed_state(game, turn, GameStatus::Finished(outcome), now);
            &&& resumed.clock.ticking() is None
            &&& resumed.clock.flagged(later) is None
            &&& resumed.clock.deadline() is None
            &&& resumed.timed_out is None
        }),
{
}

/// A pause costs nobody time: a real-time game that was brought up to date by an
/// accepted action and is taken up again at any later instant goes on at the same
/// count, with the same increment and the same side to move, and each side has
/// what it had after the action, to the whole millisecond.
pub proof fn a_pause_costs_nobody_time(
    state: ActorState,
    player: Color,
    action: JsonView,
    effect: EffectView,
    turn: Color,
    seen: JsonView,
    now: int,
    game: Game,
    later: int,
    side: Color,
)
    requires
        state.ply < u32::MAX,
        effect.status is Ongoing,
        turn == player.other(),
        state.clock matches ClockState::RealTime { increment, .. } && (game.time_control matches
            TimeControl::RealTime { increment: agreed, .. } && agreed@ == increment),
        state.after_action(player, false, now).clock.remaining(side, now) / 1_000_000 <= u64::MAX,
        state.action_steps(player, action, effect, turn, seen, now)[3] == StepView::SaveSnapshot(
            Snapshot {
                ply: game.ply,
                clock_white_ms: game.clock_white_ms,
                clock_black_ms: game.clock_black_ms,
                side_to_move: game.side_to_move,
            },
        ),
    ensures
        ({
            let stopped = state.after_action(player, false, now);
            let resumed = resumed_state(game, turn, GameStatus::Ongoing, later);
            let had = stopped.clock.remaining(side, now);
            &&& resumed.ply == stopped.ply
            &&& resumed.clock->RealTime_increment == stopped.clock->RealTime_increment
            &&& resumed.clock.runs(turn) && stopped.clock.runs(turn)
            &&& resumed.clock.remaining(side, later) == had - had % 1_000_000
        }),
{
    let stopped = state.after_action(player, false, now);
    let had = stopped.clock.remaining(side, now);
    assert(had / 1_000_000 * 1_000_000 == had - had % 1_000_000) by (nonlinear_arith);
}

/// A rebuilt game keeps its time control. While it goes on, the side to move runs from
/// the instant it is taken up: in a real-time game with the stored clocks, or the full
/// budget where none was stored yet, and with the agreed increment; in a correspondence
/// game with a whole window of the agreed days; without a limit there is no clock.
pub proof fn a_rebuilt_game_keeps_its_time_control<S: GameSession + ?Sized>(
    game: Game,
    created: Result<Box<S>, GameError>,
    log: Result<Vec<RecordedAction>, StorageError>,
    now: Timestamp,
    live: GameActor<S>,
    wake: Option<Timestamp>,
)
    requires
        call_ensures(recover_with::<S>, (&game, created, log, now), Ok(live)),
        call_ensures(GameActor::<S>::wake_at, (&live,), wake),
    ensures
        live@.game_id == game.id && live@.ply == game.ply,
        !live@.persisted && live@.timed_out is None,
        live.session().standing() is Finished ==> wake is None && live@.clock.ticking() is None,
        game.time_control is Unlimited ==> live@.clock is Unlimited && wake is None,
        live.session().standing() is Ongoing ==> {
            let turn = live.session().turn();
            &&& game.time_control matches TimeControl::Correspondence { days_per_move } ==> {
                let window = (days_per_move * 24 * 60 * 60 * 1_000_000_000) as nat;
                &&& live@.clock == (ClockState::Correspondence {
                    per_move: window,
                    ticking: Some((turn, now@)),
                })
                &&& actor_laws::wakes_when_up(wake, now@ + window)
            }
            &&& game.time_control matches TimeControl::RealTime { initial, increment } ==> {
                let unstored = game.clock_white_ms is None && game.clock_black_ms is None;
                &&& live@.clock matches ClockState::RealTime {
                    white,
                    black,
                    increment: added,
                    ticking,
                } && {
                    &&& added == increment@
                    &&& ticking == Some((turn, now@))
                    &&& unstored ==> white == initial@ && black == initial@
                    &&& game.clock_white_ms matches Some(ms) ==> white == ms * 1_000_000
                    &&& game.clock_black_ms matches Some(ms) ==> black == ms * 1_000_000
                    &&& !unstored && game.clock_white_ms is None ==> white == 0
                    &&& !unstored && game.clock_black_ms is None ==> black == 0
                    &&& turn == Color::White ==> actor_laws::wakes_when_up(wake, now@ + white)
                    &&& turn == Color::Black ==> actor_laws::wakes_when_up(wake, now@ + black)
                }
            }
        },
{
}

/// A rebuilt session has played what the log tells, entry by entry and nothing else, on
/// top of what the session it was rebuilt from had played.
pub proof fn a_rebuilt_session_played_the_log<S: GameSession + ?Sized>(
    game: Game,
    session: Box<S>,
    log: Vec<RecordedAction>,
    now: Timestamp,
    live: GameActor<S>,
    i: int,
)
    requires
        call_ensures(recover_with::<S>, (&game, Ok(session), Ok(log), now), Ok(live)),
    ensures
        live.session().played().len() == session.played().len() + log@.len(),
        0 <= i < session.played().len() ==> live.session().played()[i] == session.played()[i],
        0 <= i < log@.len() ==> live.session().played()[session.played().len() + i] == (
            log@[i].player,
            log@[i].action@,
        ),
        live.session().variant_name() == session.variant_name(),
        live.session().setup() == session.setup(),
{
    assert(logged(log@).len() == log@.len());
}

/// Why a game cannot be rebuilt: no session could be created, then the log could not be
/// read, then an entry of the log was refused; the error names the variant, the failure
/// of the store, or the entry's count and the session's refusal.
pub proof fn a_failed_rebuild_tells_why<S: GameSession + ?Sized>(
    game: Game,
    created: Result<Box<S>, GameError>,
    log: Result<Vec<RecordedAction>, StorageError>,
    now: Timestamp,
    r: Result<GameActor<S>, RecoveryError>,
)
    requires
        call_ensures(recover_with::<S>, (&game, created, log, now), r),
    ensures
        created matches Err(cause) ==> (r matches Err(
            RecoveryError::Session { variant_id, source },
        ) && variant_id@ == game.variant_id@ && source == cause),
        created is Ok ==> (log matches Err(cause) ==> (r matches Err(RecoveryError::Log(e)) && e
            == cause)),
        created is Ok && log is Ok && log->Ok_0@.len() == 0 ==> r is Ok,
        created is Ok && log is Ok && r is Err ==> (r matches Err(
            RecoveryError::Replay { ply, source },
        ) && exists|i: int|
            0 <= i < log->Ok_0@.len() && (#[trigger] log->Ok_0@[i]).ply == ply && exists|s: Box<S>|
                s.played() == created->Ok_0.played() + logged(log->Ok_0@).take(i)
                    && #[trigger] s.responds(
                    log->Ok_0@[i].player,
                    log->Ok_0@[i].action@,
                    Err(source),
                )),
{
    if created is Ok && log is Ok && r is Err {
        let e = r->Err_0;
        let all = log->Ok_0@;
        let fresh = created->Ok_0;
        let i = choose|i: int| #[trigger] refused_at(e, fresh, all, i);
        assert(refused_at(e, fresh, all, i));
        assert(all[i].ply == e->Replay_ply);
    }
}

/// What is read back from a stored record: the clocks that were stored, a full budget for
/// a real-time game that has none yet, and nothing for a clock that is missing.
pub proof fn stored_budgets_are_taken_up(game: Game, r: ClockRemaining)
    requires
        call_ensures(resume_clock, (&game,), r),
    ensures
        game.clock_white_ms matches Some(ms) ==> r.white@ == ms * 1_000_000,
        game.clock_black_ms matches Some(ms) ==> r.black@ == ms * 1_000_000,
        game.clock_white_ms is Some && game.clock_black_ms is None ==> r.black@ == 0,
        game.clock_black_ms is Some && game.clock_white_ms is None ==> r.white@ == 0,
        game.clock_white_ms is None && game.clock_black_ms is None ==> match game.time_control {
            TimeControl::RealTime { initial, .. } => r.white@ == initial@ && r.black@ == initial@,
            _ => r.white@ == 0 && r.black@ == 0,
        },
{
}

/// A game is rebuilt as a game of its own variant with its own options, on what the log
/// tells and nothing else, at its stored count and with its stored time control; a
/// variant nobody registered is reported by name.
pub proof fn a_stored_game_is_rebuilt_as_itself(
    game: Game,
    registry: VariantRegistry,
    log: Result<Vec<RecordedAction>, StorageError>,
    now: Timestamp,
    r: Result<GameActor<dyn GameSession>, RecoveryError>,
)
    requires
        call_ensures(recover_game, (&game, &registry, log, now), r),
    ensures
        registry.registered(game.variant_id@) is None ==> (r matches Err(
            RecoveryError::Session { variant_id, source },
        ) && variant_id@ == game.variant_id@ && (source matches GameError::UnknownVariant(s) && s@
            == game.variant_id@)),
        log matches Err(cause) ==> r is Err,
        r matches Ok(live) ==> {
            &&& log is Ok
            &&& registry.registered(game.variant_id@) is Some
            &&& live.session().variant_name() == registry.registered(game.variant_id@)->0.ident()
            &&& live.session().setup() == game.variant_options@
            &&& live.session().played().len() == log->Ok_0@.len()
            &&& forall|i: int|
                0 <= i < log->Ok_0@.len() ==> #[trigger] live.session().played()[i] == (
                    log->Ok_0@[i].player,
                    log->Ok_0@[i].action@,
                )
            &&& live@.game_id == game.id && live@.ply == game.ply
            &&& !live@.persisted && live@.timed_out is None
            &&& live.session().standing() is Finished ==> live@.clock.ticking() is None
            &&& game.time_control is Unlimited ==> live@.clock is Unlimited
            &&& live.session().standing() is Ongoing ==> (game.time_control matches
                TimeControl::Correspondence { days_per_move } ==> live@.clock == (
            ClockState::Correspondence {
                per_move: (days_per_move * 24 * 60 * 60 * 1_000_000_000) as nat,
                ticking: Some((live.session().turn(), now@)),
            }))
            &&& live.session().standing() is Ongoing ==> (game.time_control matches
                TimeControl::RealTime { initial, increment } ==> live@.clock is RealTime
                && live@.clock->RealTime_increment == increment@ && live@.clock->RealTime_ticking
                == Some((live.session().turn(), now@)) && (game.clock_white_ms is None
                && game.clock_black_ms is None ==> live@.clock->white == initial@
                && live@.clock->black == initial@) && (game.clock_white_ms matches Some(ms)
                ==> live@.clock->white == ms * 1_000_000) && (game.clock_black_ms matches Some(ms)
                ==> live@.clock->black == ms * 1_000_000))
        },
        (r matches Err(RecoveryError::Log(e)) ==> log matches Err(cause) && cause == e),
{
}

/// A replay plays every entry of the log in order, or stops at the first that is refused
/// and reports its count and the refusal.
pub proof fn a_replay_plays_the_log_in_order<S: GameSession + ?Sized>(
    session: &mut Box<S>,
    log: Vec<RecordedAction>,
    r: Result<(), RecoveryError>,
    i: int,
)
    requires
        call_ensures(replay::<S>, (session, &log), r),
    ensures
        r is Ok ==> final(session).played().len() == old(session).played().len() + log@.len(),
        r is Ok && 0 <= i < log@.len() ==> final(session).played()[old(session).played().len() + i]
            == (log@[i].player, log@[i].action@),
        r matches Err(e) ==> (e matches RecoveryError::Replay { ply, .. } && exists|k: int|
            0 <= k < log@.len() && (#[trigger] log@[k]).ply == ply),
        log@.len() == 0 ==> r is Ok,
{
    assert(logged(log@).len() == log@.len());
    if r is Err {
        let e = r->Err_0;
        let fresh = *old(session);
        let k = choose|k: int| #[trigger] refused_at(e, fresh, log@, k);
        assert(refused_at(e, fresh, log@, k));
        assert(log@[k].ply == e->Replay_ply);
    }
}

} // verus!
