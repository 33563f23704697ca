//! The decisions of the actor that owns one live game.
//!
//! A live game is owned by one [`GameActor`], the only thing that touches its
//! session. The actor decides; whoever runs it performs the [`Step`]s that each
//! decision lists, in order, and stops at the first one that fails. What the
//! caller of the failed operation is told is then [`settle`]d.

use vstd::prelude::*;

use crate::domain::clock::{Clock, ClockView};
use crate::domain::game::Game;
use crate::domain::ids::GameId;
use crate::domain::time_control::TimeControl;
use crate::game::clock::{ClockEngine, ClockState};
use crate::game::error::GameSessionError;
use crate::game::event;
use crate::game::event::{GameEvent, GameEventView};
use crate::game::spectator;
use crate::game::spectator::{FrameView, SpectatorFrame};
use crate::game::storage::{RecordedAction, RecordedView, StorageError};
use crate::text;
use crate::time::{Duration, Timestamp};
use crate::variant::color::Color;
use crate::variant::error::GameError;
use crate::variant::json::JsonView;
use crate::variant::payload::{Action, Event, PlayerView};
use crate::variant::session::GameSession;
use crate::variant::status::{ActionEffect, EffectView, EndReason, GameStatus, Outcome};

verus! {

/// What a game's record is brought up to date with after an action.
#[derive(Debug, Clone, Copy, PartialEq, Eq, Structural)]
pub struct Snapshot {
    /// The number of half-moves played.
    pub ply: u32,
    /// White's clock in milliseconds, when the game is timed.
    pub clock_white_ms: Option<u64>,
    /// Black's clock in milliseconds, when the game is timed.
    pub clock_black_ms: Option<u64>,
    /// Whose turn it is, while the game goes on.
    pub side_to_move: Option<Color>,
}

impl Snapshot {
    /// Brings a game's record up to date.
    pub fn write_to(&self, game: &mut Game, now: Timestamp)
        ensures
            *final(game) == (Game {
                ply: self.ply,
                clock_white_ms: self.clock_white_ms,
                clock_black_ms: self.clock_black_ms,
                side_to_move: self.side_to_move,
                updated_at: now,
                ..*old(game)
            }),
    {
        game.update_snapshot(
            self.ply,
            self.clock_white_ms,
            self.clock_black_ms,
            self.side_to_move,
            now,
        );
    }
}

/// A request to the actor of a game.
#[derive(Debug, PartialEq, Eq)]
pub enum Command {
    /// Apply `action` for `player`.
    SubmitAction { player: Color, action: Action },
    /// Tell what `player` may observe.
    ViewFor { player: Color },
    /// Tell what spectators may observe.
    SpectatorView,
    /// Tell which actions `player` may submit.
    LegalActions { player: Color },
    /// Tell where the game is in its life.
    Status,
    /// Tell how the game ended.
    Outcome,
}

impl Command {
    /// The name of the request, with its player when it has one.
    pub open spec fn name(self) -> Seq<char> {
        match self {
            Command::SubmitAction { player, .. } => "SubmitAction("@ + player.name() + ")"@,
            Command::ViewFor { player } => "ViewFor("@ + player.name() + ")"@,
            Command::SpectatorView => "SpectatorView"@,
            Command::LegalActions { player } => "LegalActions("@ + player.name() + ")"@,
            Command::Status => "Status"@,
            Command::Outcome => "Outcome"@,
        }
    }

    /// Names the request for a log, without its payload.
    pub fn to_string(&self) -> (r: String)
        ensures
            r@ == self.name(),
    {
        match self {
            Command::SubmitAction { player, .. } => text::join3(
                "SubmitAction(",
                player.to_string().as_str(),
                ")",
            ),
            Command::ViewFor { player } => text::join3(
                "ViewFor(",
                player.to_string().as_str(),
                ")",
            ),
            Command::SpectatorView => "SpectatorView".to_owned(),
            Command::LegalActions { player } => text::join3(
                "LegalActions(",
                player.to_string().as_str(),
                ")",
            ),
            Command::Status => "Status".to_owned(),
            Command::Outcome => "Outcome".to_owned(),
        }
    }
}

/// What the actor answers a request with.
#[derive(Debug, PartialEq, Eq)]
pub enum Reply {
    /// What is to be done for a submitted action, and what its player is told.
    Submitted(Turn),
    /// What the asker may observe.
    View(PlayerView),
    /// The actions that may be submitted.
    Actions(Vec<Action>),
    /// Where the game is in its life.
    Status(GameStatus),
    /// How the game ended.
    Outcome(Option<Outcome>),
}

/// One thing to be done for a game.
#[derive(Debug, PartialEq, Eq)]
pub enum Step {
    /// Send the update to everyone who watches.
    Broadcast(GameEvent),
    /// Publish the frame on the topic.
    Publish { topic: String, frame: SpectatorFrame },
    /// Append the action to the game's log.
    Append(RecordedAction),
    /// Load the game's record, bring it up to date and store it.
    SaveSnapshot(Snapshot),
    /// Load the game's record, finish it and store it.
    Finish(Outcome),
    /// Tell the completion hook that the game is over and stored.
    Notify(Outcome),
}

/// The mathematical model of a [`Step`].
pub enum StepView {
    /// Send the update to everyone who watches.
    Broadcast(GameEventView),
    /// Publish the frame on the topic.
    Publish { topic: Seq<char>, frame: FrameView },
    /// Append the action to the game's log.
    Append(RecordedView),
    /// Bring the game's record up to date.
    SaveSnapshot(Snapshot),
    /// Finish the game's record.
    Finish(Outcome),
    /// Tell the completion hook.
    Notify(Outcome),
}

impl Step {
    /// The model of the step.
    pub open spec fn view(self) -> StepView {
        match self {
            Step::Broadcast(e) => StepView::Broadcast(e@),
            Step::Publish { topic, frame } => StepView::Publish { topic: topic@, frame: frame@ },
            Step::Append(a) => StepView::Append(a@),
            Step::SaveSnapshot(s) => StepView::SaveSnapshot(s),
            Step::Finish(o) => StepView::Finish(o),
            Step::Notify(o) => StepView::Notify(o),
        }
    }
}

/// The models of a list of steps.
pub open spec fn steps_view(steps: Seq<Step>) -> Seq<StepView> {
    Seq::new(steps.len(), |i: int| steps[i]@)
}

/// The answer to a submitted action: what is to be done, and what the player is
/// told when all of it succeeds.
#[derive(Debug, PartialEq, Eq)]
pub struct Turn {
    /// What is to be done, in order.
    pub steps: Vec<Step>,
    /// What the player is told.
    pub reply: Result<ActionEffect, GameSessionError>,
}

/// Each side's time when a stored game is taken up again.
#[derive(Debug, Clone, Copy, PartialEq, Eq, Structural)]
pub struct ClockRemaining {
    /// White's time.
    pub white: Duration,
    /// Black's time.
    pub black: Duration,
}

impl ClockRemaining {
    /// Both times from stored milliseconds; a missing value counts as nothing.
    #[must_use]
    pub fn from_millis(white: Option<u64>, black: Option<u64>) -> (r: Self)
        ensures
            r.white@ == stored_millis(white) * 1_000_000,
            r.black@ == stored_millis(black) * 1_000_000,
    {
        let w: u64 = match white {
            Some(ms) => ms,
            None => 0,
        };
        let b: u64 = match black {
            Some(ms) => ms,
            None => 0,
        };
        ClockRemaining { white: Duration::from_millis(w), black: Duration::from_millis(b) }
    }
}

/// Stored milliseconds; a missing value counts as nothing.
pub open spec fn stored_millis(ms: Option<u64>) -> nat {
    match ms {
        Some(n) => n as nat,
        None => 0,
    }
}

/// The state of an actor besides its session.
pub struct ActorState {
    /// The game the actor owns.
    pub game_id: GameId,
    /// The game's clock.
    pub clock: ClockState,
    /// The number of half-moves played.
    pub ply: u32,
    /// Whether the finished game was stored.
    pub persisted: bool,
    /// How the game ended, when it ended on time.
    pub timed_out: Option<Outcome>,
}

/// The whole milliseconds in a span of nanoseconds, as far as they fit.
pub open spec fn millis(nanos: nat) -> u64 {
    if nanos / 1_000_000 <= u64::MAX {
        (nanos / 1_000_000) as u64
    } else {
        u64::MAX
    }
}

/// White's time in an optional clock, in milliseconds.
pub open spec fn white_millis(clock: Option<ClockView>) -> Option<u64> {
    match clock {
        Some(c) => Some(millis(c.white)),
        None => None,
    }
}

/// Black's time in an optional clock, in milliseconds.
pub open spec fn black_millis(clock: Option<ClockView>) -> Option<u64> {
    match clock {
        Some(c) => Some(millis(c.black)),
        None => None,
    }
}

/// The clocks shown with an update at `now`: none when the game tracks no time,
/// and no running turn once the game is over.
pub open spec fn shown_clock(clock: ClockState, over: bool, now: int) -> Option<ClockView> {
    if clock is Unlimited {
        None
    } else if over {
        Some(ClockView { started: None, ..clock.snapshot(now) })
    } else {
        Some(clock.snapshot(now))
    }
}

/// The clock that starts at `now` in a game with `turn` to move: none in a game that
/// is over.
pub open spec fn started_clock(turn: Color, standing: GameStatus, now: int) -> Option<(Color, int)> {
    match standing {
        GameStatus::Ongoing => Some((turn, now)),
        GameStatus::Finished(_) => None,
    }
}

/// The outcome of a game that `side` lost on time.
pub open spec fn lost_on_time(side: Color) -> Outcome {
    Outcome { winner: Some(side.other()), reason: EndReason::Timeout }
}

/// What is done to end a game: it is stored, then the hook is told, unless it was
/// stored before.
pub open spec fn closing_steps(persisted: bool, outcome: Outcome) -> Seq<StepView> {
    if persisted {
        seq![]
    } else {
        seq![StepView::Finish(outcome), StepView::Notify(outcome)]
    }
}

impl ActorState {
    /// The state after an accepted action by `player`.
    pub open spec fn after_action(self, player: Color, over: bool, now: int) -> ActorState {
        let moved = self.clock.after_move(player, now);
        ActorState {
            clock: if over {
                moved.with_ticking(None)
            } else {
                moved
            },
            ply: (self.ply + 1) as u32,
            ..self
        }
    }

    /// The state after `side` lost on time.
    pub open spec fn after_timeout(self, side: Color) -> ActorState {
        ActorState {
            clock: self.clock.with_ticking(None),
            timed_out: Some(lost_on_time(side)),
            ..self
        }
    }

    /// What is done for an accepted action: watchers and spectators learn of it,
    /// it joins the log, the record is brought up to date, and a game that ended
    /// is closed. `turn` and `seen` are the side to move and the spectators' view
    /// after the action.
    pub open spec fn action_steps(
        self,
        player: Color,
        action: JsonView,
        effect: EffectView,
        turn: Color,
        seen: JsonView,
        now: int,
    ) -> Seq<StepView> {
        let over = effect.status is Finished;
        let clock = shown_clock(self.clock.after_move(player, now), over, now);
        let next = (self.ply + 1) as u32;
        let told = seq![
            StepView::Broadcast(
                GameEventView { events: effect.events, status: effect.status, clock },
            ),
            StepView::Publish {
                topic: spectator::topic_text(self.game_id),
                frame: FrameView { view: seen, status: effect.status, clock, ply: next },
            },
            StepView::Append(
                RecordedView {
                    ply: self.ply,
                    player,
                    action,
                    clock_white_ms: white_millis(clock),
                    clock_black_ms: black_millis(clock),
                },
            ),
            StepView::SaveSnapshot(
                Snapshot {
                    ply: next,
                    clock_white_ms: white_millis(clock),
                    clock_black_ms: black_millis(clock),
                    side_to_move: if over {
                        None
                    } else {
                        Some(turn)
                    },
                },
            ),
        ];
        match effect.status {
            GameStatus::Finished(outcome) => told + closing_steps(self.persisted, outcome),
            GameStatus::Ongoing => told,
        }
    }

    /// What is done when `side` lost on time: watchers and spectators learn of it
    /// and the game is closed. `seen` is the spectators' view.
    pub open spec fn timeout_steps(self, side: Color, seen: JsonView, now: int) -> Seq<StepView> {
        let clock = shown_clock(self.clock, true, now);
        let outcome = lost_on_time(side);
        let status = GameStatus::Finished(outcome);
        seq![
            StepView::Broadcast(GameEventView { events: seq![], status, clock }),
            StepView::Publish {
                topic: spectator::topic_text(self.game_id),
                frame: FrameView { view: seen, status, clock, ply: self.ply },
            },
        ] + closing_steps(self.persisted, outcome)
    }
}

fn to_millis(d: Duration) -> (r: u64)
    ensures
        r == millis(d@),
{
    let ms: u128 = d.as_millis();
    if ms <= u64::MAX as u128 {
        ms as u64
    } else {
        u64::MAX
    }
}

fn opt_white_millis(clock: &Option<Clock>) -> (r: Option<u64>)
    ensures
        r == white_millis(event::clock_view(*clock)),
{
    match clock {
        Some(c) => Some(to_millis(c.white_remaining)),
        None => None,
    }
}

fn opt_black_millis(clock: &Option<Clock>) -> (r: Option<u64>)
    ensures
        r == black_millis(event::clock_view(*clock)),
{
    match clock {
        Some(c) => Some(to_millis(c.black_remaining)),
        None => None,
    }
}

fn show_clock(clock: &ClockEngine, over: bool, now: Timestamp) -> (r: Option<Clock>)
    ensures
        event::clock_view(r) == shown_clock(clock@, over, now@),
{
    if clock.is_unlimited() {
        return None;
    }
    let live = clock.snapshot(now);
    if over {
        Some(Clock::with_times(live.white_remaining, live.black_remaining, None))
    } else {
        Some(live)
    }
}

/// The owner of one live game.
pub struct GameActor<S: GameSession + ?Sized> {
    game_id: GameId,
    session: Box<S>,
    clock: ClockEngine,
    ply: u32,
    persisted: bool,
    timed_out: Option<Outcome>,
}

impl<S: GameSession + ?Sized> GameActor<S> {
    /// The state of the actor besides its session.
    pub closed spec fn view(self) -> ActorState {
        ActorState {
            game_id: self.game_id,
            clock: self.clock@,
            ply: self.ply,
            persisted: self.persisted,
            timed_out: self.timed_out,
        }
    }

    /// The session the actor owns.
    pub closed spec fn session(self) -> Box<S> {
        self.session
    }

    /// Whether the game is over: on time, or because the session says so.
    pub open spec fn is_over(self) -> bool {
        self@.timed_out is Some || self.session().standing() is Finished
    }

    /// Takes over a fresh game at `now`: the clock of the side to move starts, unless
    /// the game is over already.
    pub fn new(
        game_id: GameId,
        session: Box<S>,
        time_control: &TimeControl,
        now: Timestamp,
    ) -> (r: Self)
        ensures
            r.session() == session,
            r@ == (ActorState {
                game_id,
                clock: ClockState::fresh(*time_control).with_ticking(
                    started_clock(session.turn(), session.standing(), now@),
                ),
                ply: 0,
                persisted: false,
                timed_out: None,
            }),
            r.is_over() ==> at_rest(r),
    {
        let mut clock = ClockEngine::new(time_control);
        if !session.status().is_finished() {
            let turn = session.to_move();
            clock.start(turn, now);
        }
        GameActor { game_id, session, clock, ply: 0, persisted: false, timed_out: None }
    }

    /// Takes a stored game up again at `now` with its half-moves and clocks: the
    /// clock of the side to move starts only now, so the pause is charged to
    /// nobody. No clock runs in a game that is over already.
    pub fn resumed(
        game_id: GameId,
        session: Box<S>,
        time_control: &TimeControl,
        ply: u32,
        remaining: ClockRemaining,
        now: Timestamp,
    ) -> (r: Self)
        ensures
            r.session() == session,
            r@ == (ActorState {
                game_id,
                clock: match *time_control {
                    TimeControl::RealTime { increment, .. } => ClockState::RealTime {
                        white: remaining.white@,
                        black: remaining.black@,
                        increment: increment@,
                        ticking: started_clock(session.turn(), session.standing(), now@),
                    },
                    _ => ClockState::fresh(*time_control).with_ticking(
                        started_clock(session.turn(), session.standing(), now@),
                    ),
                },
                ply,
                persisted: false,
                timed_out: None,
            }),
            r.is_over() ==> at_rest(r),
    {
        let mut clock = ClockEngine::from_remaining(time_control, remaining.white, remaining.black);
        if !session.status().is_finished() {
            let turn = session.to_move();
            clock.start(turn, now);
        }
        GameActor { game_id, session, clock, ply, persisted: false, timed_out: None }
    }

    /// The game the actor owns.
    #[must_use]
    pub fn game_id(&self) -> (r: GameId)
        ensures
            r == self@.game_id,
    {
        self.game_id
    }

    /// The number of half-moves played.
    #[must_use]
    pub fn ply(&self) -> (r: u32)
        ensures
            r == self@.ply,
    {
        self.ply
    }

    /// When to call [`GameActor::on_timer`]: the instant the running side is out
    /// of time, if a clock runs and the calendar can express that instant.
    #[must_use]
    pub fn wake_at(&self) -> (r: Option<Timestamp>)
        ensures
            match self@.clock.deadline() {
                Some(at) => if at <= crate::time::MAX_INSTANT_NANOS {
                    r is Some && r->0@ == at
                } else {
                    r is None
                },
                None => r is None,
            },
    {
        self.clock.expressible_deadline()
    }

    /// What `player` may observe.
    #[must_use]
    pub fn view_for(&self, player: Color) -> (r: PlayerView)
        ensures
            r@ == self.session().seen_by(player),
    {
        self.session.view_for(player)
    }

    /// What spectators may observe.
    #[must_use]
    pub fn spectator_view(&self) -> (r: PlayerView)
        ensures
            r@ == self.session().seen_by_spectators(),
    {
        self.session.spectator_view()
    }

    /// The actions `player` may submit now; none once the game ended on time.
    #[must_use]
    pub fn legal_actions(&self, player: Color) -> (r: Vec<Action>)
        ensures
            crate::variant::payload::actions_view(r@) == if self@.timed_out is Some {
                Seq::<JsonView>::empty()
            } else {
                self.session().choices(player)
            },
            self.is_over() || player != self.session().turn() ==> r@.len() == 0,
    {
        if self.timed_out.is_some() {
            let none: Vec<Action> = Vec::new();
            assert(crate::variant::payload::actions_view(none@) =~= Seq::<JsonView>::empty());
            return none;
        }
        self.session.legal_actions(player)
    }

    /// Where the game is in its life: over, when it ended on time, and otherwise
    /// what the session says.
    #[must_use]
    pub fn status(&self) -> (r: GameStatus)
        ensures
            r == match self@.timed_out {
                Some(o) => GameStatus::Finished(o),
                None => self.session().standing(),
            },
            r is Finished <==> self.is_over(),
    {
        match &self.timed_out {
            Some(o) => GameStatus::Finished(o.clone()),
            None => self.session.status(),
        }
    }

    /// How the game ended: on time, when it did, and otherwise what the session
    /// says.
    #[must_use]
    pub fn outcome(&self) -> (r: Option<Outcome>)
        ensures
            r == match self@.timed_out {
                Some(o) => Some(o),
                None => self.session().result(),
            },
            r is Some <==> self.is_over(),
    {
        match &self.timed_out {
            Some(o) => Some(o.clone()),
            None => self.session.outcome(),
        }
    }

    /// Notes that the finished game was stored, so that it is never stored again.
    pub fn mark_persisted(&mut self)
        ensures
            final(self)@ == (ActorState { persisted: true, ..old(self)@ }),
            final(self).session() == old(self).session(),
    {
        self.persisted = true;
    }

    fn end_on_time(&mut self, side: Color, now: Timestamp) -> (r: Vec<Step>)
        ensures
            steps_view(r@) == old(self)@.timeout_steps(
                side,
                old(self).session().seen_by_spectators(),
                now@,
            ),
            final(self)@ == old(self)@.after_timeout(side),
            final(self).session() == old(self).session(),
    {
        let clock = show_clock(&self.clock, true, now);
        let outcome = Outcome::win(side.opposite(), EndReason::Timeout);
        let status = GameStatus::Finished(outcome.clone());
        let none: Vec<Event> = Vec::new();
        assert(crate::variant::payload::events_view(none@) =~= Seq::<JsonView>::empty());
        let update = GameEvent::new(none, status.clone()).with_clock(clock);
        let frame = SpectatorFrame::new(self.session.spectator_view(), status, clock, self.ply);
        let mut steps: Vec<Step> = Vec::new();
        steps.push(Step::Broadcast(update));
        steps.push(Step::Publish { topic: spectator::spectator_topic(self.game_id), frame });
        if !self.persisted {
            steps.push(Step::Finish(outcome.clone()));
            steps.push(Step::Notify(outcome.clone()));
        }
        self.clock.stop();
        self.timed_out = Some(outcome);
        assert(steps_view(steps@) =~= old(self)@.timeout_steps(
            side,
            old(self).session().seen_by_spectators(),
            now@,
        ));
        steps
    }

    /// The timer went off at `now`: ends the game when the running side is out of
    /// time, and does nothing when it is not, or when the game already ended on
    /// time.
    pub fn on_timer(&mut self, now: Timestamp) -> (r: Vec<Step>)
        ensures
            final(self).session() == old(self).session(),
            match (old(self)@.timed_out, old(self)@.clock.flagged(now@)) {
                (None, Some(side)) => {
                    &&& steps_view(r@) == old(self)@.timeout_steps(
                        side,
                        old(self).session().seen_by_spectators(),
                        now@,
                    )
                    &&& final(self)@ == old(self)@.after_timeout(side)
                },
                _ => r@.len() == 0 && final(self)@ == old(self)@,
            },
            at_rest(*old(self)) ==> r@.len() == 0 && final(self)@ == old(self)@,
    {
        if self.timed_out.is_some() {
            return Vec::new();
        }
        match self.clock.flagged(now) {
            Some(side) => self.end_on_time(side, now),
            None => Vec::new(),
        }
    }

    /// Submits `action` for `player` at `now`.
    ///
    /// A game that ended on time takes no action. A side found out of time loses
    /// on the spot. Otherwise the session decides: it refuses every action once the
    /// game is over and every action out of turn, a refused action changes nothing,
    /// and an accepted one moves the clock and the count on.
    pub fn submit_action(&mut self, player: Color, action: &Action, now: Timestamp) -> (r: Turn)
        requires
            old(self)@.ply < u32::MAX,
        ensures
            submit_contract(*old(self), *final(self), player, action@, now@, r),
    {
        if self.timed_out.is_some() {
            return Turn {
                steps: Vec::new(),
                reply: Err(GameSessionError::Game(GameError::Finished)),
            };
        }
        if let Some(side) = self.clock.flagged(now) {
            let steps = self.end_on_time(side, now);
            return Turn { steps, reply: Err(GameSessionError::Game(GameError::Finished)) };
        }
        let answer = self.session.apply(player, action);
        let ghost answered = answer;
        assert(old(self).session().responds(player, action@, answered));
        match answer {
            Err(e) => Turn { steps: Vec::new(), reply: Err(GameSessionError::Game(e)) },
            Ok(effect) => {
                let over = effect.status.is_finished();
                self.clock.on_move(player, now);
                let clock = show_clock(&self.clock, over, now);
                if over {
                    self.clock.stop();
                }
                let at: u32 = self.ply;
                self.ply = at + 1;
                let copy = effect.clone();
                let update = GameEvent::new(copy.events, copy.status).with_clock(clock);
                let frame = SpectatorFrame::new(
                    self.session.spectator_view(),
                    effect.status.clone(),
                    clock,
                    self.ply,
                );
                let record = RecordedAction {
                    ply: at,
                    player,
                    action: action.clone(),
                    clock_white_ms: opt_white_millis(&clock),
                    clock_black_ms: opt_black_millis(&clock),
                };
                let side_to_move = if over {
                    None
                } else {
                    Some(self.session.to_move())
                };
                let snapshot = Snapshot {
                    ply: self.ply,
                    clock_white_ms: opt_white_millis(&clock),
                    clock_black_ms: opt_black_millis(&clock),
                    side_to_move,
                };
                let mut steps: Vec<Step> = Vec::new();
                steps.push(Step::Broadcast(update));
                steps.push(
                    Step::Publish { topic: spectator::spectator_topic(self.game_id), frame },
                );
                steps.push(Step::Append(record));
                steps.push(Step::SaveSnapshot(snapshot));
                if let GameStatus::Finished(outcome) = &effect.status {
                    if !self.persisted {
                        steps.push(Step::Finish(outcome.clone()));
                        steps.push(Step::Notify(outcome.clone()));
                    }
                }
                assert(steps_view(steps@) =~= old(self)@.action_steps(
                    player,
                    action@,
                    effect@,
                    self.session().turn(),
                    self.session().seen_by_spectators(),
                    now@,
                ));
                Turn { steps, reply: Ok(effect) }
            },
        }
    }
}

impl<S: GameSession + ?Sized> GameActor<S> {
    /// What the actor answers a question with: it changes nothing.
    pub open spec fn answers(self, command: Command, reply: Reply) -> bool {
        match command {
            Command::SubmitAction { .. } => false,
            Command::ViewFor { player } => reply matches Reply::View(v) && v@
                == self.session().seen_by(player),
            Command::SpectatorView => reply matches Reply::View(v) && v@
                == self.session().seen_by_spectators(),
            Command::LegalActions { player } => reply matches Reply::Actions(a)
                && crate::variant::payload::actions_view(a@) == if self@.timed_out is Some {
                Seq::<JsonView>::empty()
            } else {
                self.session().choices(player)
            },
            Command::Status => reply == Reply::Status(
                match self@.timed_out {
                    Some(o) => GameStatus::Finished(o),
                    None => self.session().standing(),
                },
            ),
            Command::Outcome => reply == Reply::Outcome(
                match self@.timed_out {
                    Some(o) => Some(o),
                    None => self.session().result(),
                },
            ),
        }
    }

    /// Serves one request at `now`. Only a submitted action changes anything.
    pub fn handle(&mut self, command: Command, now: Timestamp) -> (r: Reply)
        requires
            command is SubmitAction ==> old(self)@.ply < u32::MAX,
        ensures
            match command {
                Command::SubmitAction { player, action } => r matches Reply::Submitted(turn)
                    && submit_contract(*old(self), *final(self), player, action@, now@, turn),
                _ => *final(self) == *old(self) && old(self).answers(command, r),
            },
    {
        match command {
            Command::SubmitAction { player, action } => {
                Reply::Submitted(self.submit_action(player, &action, now))
            },
            Command::ViewFor { player } => Reply::View(self.view_for(player)),
            Command::SpectatorView => Reply::View(self.spectator_view()),
            Command::LegalActions { player } => Reply::Actions(self.legal_actions(player)),
            Command::Status => Reply::Status(self.status()),
            Command::Outcome => Reply::Outcome(self.outcome()),
        }
    }
}

/// What [`GameActor::submit_action`] does to the actor `before`, for an action by
/// `player` at `now`.
pub open spec fn submit_contract<S: GameSession + ?Sized>(
    before: GameActor<S>,
    after: GameActor<S>,
    player: Color,
    action: JsonView,
    now: int,
    turn: Turn,
) -> bool {
    let refused = Err::<ActionEffect, GameSessionError>(GameSessionError::Game(GameError::Finished));
    if before@.timed_out is Some {
        &&& turn.steps@.len() == 0
        &&& turn.reply == refused
        &&& after@ == before@
        &&& after.session() == before.session()
    } else if before@.clock.flagged(now) is Some {
        let side = before@.clock.flagged(now)->0;
        &&& steps_view(turn.steps@) == before@.timeout_steps(
            side,
            before.session().seen_by_spectators(),
            now,
        )
        &&& turn.reply == refused
        &&& after@ == before@.after_timeout(side)
        &&& after.session() == before.session()
    } else {
        let out_of_turn = Err::<ActionEffect, GameSessionError>(
            GameSessionError::Game(GameError::NotYourTurn),
        );
        &&& before.session().standing() is Finished ==> turn.reply == refused
            && after.session().standing() == before.session().standing()
        &&& before.session().standing() is Ongoing && player != before.session().turn()
            ==> turn.reply == out_of_turn
        &&& after.session().variant_name() == before.session().variant_name()
        &&& after.session().setup() == before.session().setup()
        &&& exists|answer: Result<ActionEffect, GameError>|
            {
                &&& #[trigger] before.session().responds(player, action, answer)
                &&& match answer {
                    Err(e) => {
                        &&& turn.steps@.len() == 0
                        &&& turn.reply == Err::<ActionEffect, GameSessionError>(
                            GameSessionError::Game(e),
                        )
                        &&& after@ == before@
                        &&& after.session().played() == before.session().played()
                    },
                    Ok(effect) => {
                        &&& turn.reply == Ok::<ActionEffect, GameSessionError>(effect)
                        &&& effect.status == after.session().standing()
                        &&& after@ == before@.after_action(
                            player,
                            effect.status is Finished,
                            now,
                        )
                        &&& after.session().played() == before.session().played().push(
                            (player, action),
                        )
                        &&& steps_view(turn.steps@) == before@.action_steps(
                            player,
                            action,
                            effect@,
                            after.session().turn(),
                            after.session().seen_by_spectators(),
                            now,
                        )
                    },
                }
            }
    }
}

/// What the caller is told once the steps were performed: the storage failure,
/// if one of them failed, and otherwise the reply.
pub fn settle(
    reply: Result<ActionEffect, GameSessionError>,
    failure: Option<StorageError>,
) -> (r: Result<ActionEffect, GameSessionError>)
    ensures
        r == match failure {
            Some(e) => Err::<ActionEffect, GameSessionError>(GameSessionError::Storage(e)),
            None => reply,
        },
{
    match failure {
        Some(e) => Err(GameSessionError::Storage(e)),
        None => reply,
    }
}

/// Whether a step stores or announces the end of the game.
pub open spec fn closes(step: StepView) -> bool {
    step is Finish || step is Notify
}

/// Whether steps close a game in order: the hook is told exactly when the game
/// was just stored with the same outcome, and the game is stored at most once.
pub open spec fn closes_in_order(steps: Seq<StepView>) -> bool {
    &&& forall|i: int|
        0 <= i < steps.len() && #[trigger] steps[i] is Notify ==> 0 < i && steps[i - 1]
            == StepView::Finish(steps[i]->Notify_0)
    &&& forall|i: int, j: int|
        0 <= i < j < steps.len() ==> !(#[trigger] steps[i] is Finish && #[trigger] steps[j] is Finish)
}

/// A stored game is never stored again: once the actor knows that the finished
/// game was stored, no action and no flag stores it or tells the hook, and the
/// actor never forgets it.
pub proof fn a_stored_game_is_never_stored_again(
    state: ActorState,
    player: Color,
    action: JsonView,
    effect: EffectView,
    turn: Color,
    seen: JsonView,
    side: Color,
    now: int,
    i: int,
)
    requires
        state.persisted,
    ensures
        ({
            let steps = state.action_steps(player, action, effect, turn, seen, now);
            0 <= i < steps.len() ==> !closes(steps[i])
        }),
        ({
            let steps = state.timeout_steps(side, seen, now);
            0 <= i < steps.len() ==> !closes(steps[i])
        }),
        state.after_action(player, effect.status is Finished, now).persisted,
        state.after_timeout(side).persisted,
{
}

/// The hook runs only after the game was stored, and with the outcome that was
/// stored: steps stop at the first failure, and each announcement directly
/// follows the one step that stores the game.
pub proof fn the_hook_follows_storage(
    state: ActorState,
    player: Color,
    action: JsonView,
    effect: EffectView,
    turn: Color,
    seen: JsonView,
    side: Color,
    now: int,
)
    ensures
        closes_in_order(state.action_steps(player, action, effect, turn, seen, now)),
        closes_in_order(state.timeout_steps(side, seen, now)),
        effect.status is Finished && !state.persisted ==> state.action_steps(
            player,
            action,
            effect,
            turn,
            seen,
            now,
        ).contains(StepView::Finish(effect.status->Finished_0)),
        effect.status is Ongoing ==> forall|i: int|
            0 <= i < state.action_steps(player, action, effect, turn, seen, now).len() ==> !closes(
                #[trigger] state.action_steps(player, action, effect, turn, seen, now)[i],
            ),
{
    let steps = state.action_steps(player, action, effect, turn, seen, now);
    if effect.status is Finished && !state.persisted {
        assert(steps[4] == StepView::Finish(effect.status->Finished_0));
    }
}

/// Every accepted action is logged under the count of those before it, and moves
/// the count on by one: the log has no gap and no index twice. The record is
/// brought up to date with the count after it.
pub proof fn logged_plies_are_contiguous(
    state: ActorState,
    player: Color,
    action: JsonView,
    effect: EffectView,
    turn: Color,
    seen: JsonView,
    now: int,
)
    requires
        state.ply < u32::MAX,
    ensures
        ({
            let steps = state.action_steps(player, action, effect, turn, seen, now);
            let after = state.after_action(player, effect.status is Finished, now);
            &&& steps[2] is Append && steps[2]->Append_0.ply == state.ply
            &&& steps[2]->Append_0.player == player && steps[2]->Append_0.action == action
            &&& steps[3] is SaveSnapshot && steps[3]->SaveSnapshot_0.ply == after.ply
            &&& after.ply == state.ply + 1
        }),
{
}

/// An accepted action is logged once, and a loss on time is not an action: nothing
/// else that is done for a game appends to its log.
pub proof fn only_the_action_is_logged(
    state: ActorState,
    player: Color,
    action: JsonView,
    effect: EffectView,
    turn: Color,
    seen: JsonView,
    side: Color,
    now: int,
    i: int,
)
    ensures
        ({
            let steps = state.action_steps(player, action, effect, turn, seen, now);
            0 <= i < steps.len() ==> (steps[i] is Append <==> i == 2)
        }),
        ({
            let steps = state.timeout_steps(side, seen, now);
            0 <= i < steps.len() ==> !(steps[i] is Append)
        }),
{
    let lost = state.timeout_steps(side, seen, now);
    let done = state.action_steps(player, action, effect, turn, seen, now);
    if 0 <= i < lost.len() {
        assert(i == 0 || i == 1 || lost[i] == closing_steps(
            state.persisted,
            lost_on_time(side),
        )[i - 2]);
    }
    if 4 <= i < done.len() {
        assert(done[i] == closing_steps(state.persisted, effect.status->Finished_0)[i - 4]);
    }
}

/// Whether a game is over and its clock stands still.
pub open spec fn at_rest<S: GameSession + ?Sized>(actor: GameActor<S>) -> bool {
    actor.is_over() && actor@.clock.ticking() is None
}

/// Nothing is told or stored after the end: an action that ends the game and a
/// flag that falls leave it at rest, and a game at rest refuses every action as
/// finished, does nothing for it, and stays at rest.
pub proof fn a_game_at_rest_is_silent<S: GameSession + ?Sized>(
    before: GameActor<S>,
    after: GameActor<S>,
    player: Color,
    action: JsonView,
    now: int,
    turn: Turn,
)
    requires
        submit_contract(before, after, player, action, now, turn),
    ensures
        at_rest(before) ==> {
            &&& turn.steps@.len() == 0
            &&& turn.reply == Err::<ActionEffect, GameSessionError>(
                GameSessionError::Game(GameError::Finished),
            )
            &&& after@ == before@
            &&& at_rest(after)
        },
        turn.reply matches Ok(effect) && effect.status is Finished ==> at_rest(after),
        before@.timed_out is None && after@.timed_out is Some ==> at_rest(after),
{
}

/// A game that is over has no running clock: it cannot be lost on time any more.
pub proof fn a_finished_game_is_not_lost_on_time(
    state: ActorState,
    player: Color,
    side: Color,
    now: int,
    later: int,
)
    ensures
        state.after_action(player, true, now).clock.flagged(later) is None,
        state.after_action(player, true, now).clock.deadline() is None,
        state.after_timeout(side).clock.flagged(later) is None,
        state.after_timeout(side).clock.deadline() is None,
{
}

} // verus!
