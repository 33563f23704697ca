use std::collections::HashMap;

use mcs::domain::clock::Clock;
use mcs::domain::game::{Game, GameLifecycle};
use mcs::domain::ids::{GameId, UserId};
use mcs::domain::time_control::TimeControl;
use mcs::game::actor::{settle, Command, GameActor, Reply, Step};
use mcs::game::error::GameSessionError;
use mcs::game::event::GameEvent;
use mcs::game::spectator::{spectator_topic, FrameError, SpectatorFrame};
use mcs::game::storage::{RecordedAction, StorageError};
use mcs::time::{Duration, Timestamp};
use mcs::variant::color::Color;
use mcs::variant::error::GameError;
use mcs::variant::json::Json;
use mcs::variant::payload::{Action, Event, PlayerView};
use mcs::variant::registry::VariantOptions;
use mcs::variant::session::GameSession;
use mcs::variant::status::{ActionEffect, EndReason, GameStatus, Outcome};

// A session that knows the opening moves of chess and Fool's mate.
struct Opening {
    moves: Vec<String>,
    status: GameStatus,
}

fn text(s: &str) -> Json {
    Json::Str(s.to_owned())
}

fn mv(uci: &str) -> Action {
    Action::new(Json::Object(vec![
        ("type".to_owned(), text("move")),
        ("uci".to_owned(), text(uci)),
    ]))
}

fn opening_moves(player: Color) -> Vec<String> {
    let (pawns, one, two, knights) = match player {
        Color::White => ('2', '3', '4', ["b1a3", "b1c3", "g1f3", "g1h3"]),
        Color::Black => ('7', '6', '5', ["b8a6", "b8c6", "g8f6", "g8h6"]),
    };
    let mut moves: Vec<String> = knights.iter().map(|m| (*m).to_owned()).collect();
    for file in "abcdefgh".chars() {
        for rank in [one, two] {
            moves.push(format!("{file}{pawns}{file}{rank}"));
        }
    }
    moves
}

impl Opening {
    fn boxed() -> Box<Opening> {
        Box::new(Opening { moves: Vec::new(), status: GameStatus::Ongoing })
    }

    fn mates(&self, uci: &str) -> bool {
        self.moves == ["f2f3", "e7e5", "g2g4"] && uci == "d8h4"
    }
}

impl GameSession for Opening {
    fn variant_id(&self) -> &'static str {
        "standard"
    }

    fn to_move(&self) -> Color {
        if self.moves.len() % 2 == 0 {
            Color::White
        } else {
            Color::Black
        }
    }

    fn status(&self) -> GameStatus {
        self.status.clone()
    }

    fn legal_actions(&self, player: Color) -> Vec<Action> {
        if self.status.is_finished() || player != self.to_move() {
            return Vec::new();
        }
        let mut actions: Vec<Action> = opening_moves(player).iter().map(|m| mv(m)).collect();
        actions.push(Action::new(text("resign")));
        actions.push(Action::new(text("offer_draw")));
        actions
    }

    fn apply(&mut self, player: Color, action: &Action) -> Result<ActionEffect, GameError> {
        if self.status.is_finished() {
            return Err(GameError::Finished);
        }
        if player != self.to_move() {
            return Err(GameError::NotYourTurn);
        }
        let uci = match action.as_value().get("uci") {
            Some(Json::Str(s)) => s.clone(),
            _ => return Err(GameError::InvalidActionPayload("no move".to_owned())),
        };
        let mut events = vec![Event::new(text(&uci))];
        if self.mates(&uci) {
            self.status = GameStatus::Finished(Outcome::win(player, EndReason::Checkmate));
            events.push(Event::new(text("game_ended")));
        } else if !opening_moves(player).contains(&uci) {
            return Err(GameError::IllegalAction);
        }
        self.moves.push(uci);
        Ok(ActionEffect { status: self.status.clone(), events })
    }

    fn view_for(&self, _player: Color) -> PlayerView {
        PlayerView::new(text(&self.moves.join(" ")))
    }

    fn spectator_view(&self) -> PlayerView {
        self.view_for(Color::White)
    }

    fn outcome(&self) -> Option<Outcome> {
        match &self.status {
            GameStatus::Finished(o) => Some(o.clone()),
            GameStatus::Ongoing => None,
        }
    }
}

// Runs an actor: performs its steps in order and stops at the first failure.
struct Runner {
    actor: GameActor<Opening>,
    now: Timestamp,
    games: HashMap<GameId, Game>,
    updates: Vec<Game>,
    log: Vec<RecordedAction>,
    hook: Vec<(Game, Outcome)>,
    events: Vec<GameEvent>,
    frames: Vec<(String, SpectatorFrame)>,
    fail_finish: bool,
    fail_append: bool,
}

fn after(secs: u64) -> Timestamp {
    Timestamp::unix_epoch()
        .checked_add(Duration::from_secs(secs))
        .unwrap()
}

fn active_game(id: GameId, tc: &TimeControl) -> Game {
    let mut game = Game::new(
        "standard".to_owned(),
        VariantOptions::default(),
        UserId::new(),
        UserId::new(),
        tc.clone(),
        Timestamp::unix_epoch(),
    );
    game.id = id;
    game.lifecycle = GameLifecycle::Active;
    game
}

fn real_time(initial: u64, increment: u64) -> TimeControl {
    TimeControl::RealTime {
        initial: Duration::from_secs(initial),
        increment: Duration::from_secs(increment),
    }
}

impl Runner {
    fn start(tc: TimeControl) -> Runner {
        let id = GameId::new();
        let now = Timestamp::unix_epoch();
        let mut games = HashMap::new();
        games.insert(id, active_game(id, &tc));
        Runner {
            actor: GameActor::new(id, Opening::boxed(), &tc, now),
            now,
            games,
            updates: Vec::new(),
            log: Vec::new(),
            hook: Vec::new(),
            events: Vec::new(),
            frames: Vec::new(),
            fail_finish: false,
            fail_append: false,
        }
    }

    fn id(&self) -> GameId {
        self.actor.game_id()
    }

    fn store(&mut self, game: Game) -> Result<(), StorageError> {
        if self.fail_finish && game.lifecycle == GameLifecycle::Finished {
            return Err(StorageError::Backend("write failed".to_owned()));
        }
        self.games.insert(game.id, game.clone());
        self.updates.push(game);
        Ok(())
    }

    fn perform(&mut self, step: Step) -> Result<(), StorageError> {
        match step {
            Step::Broadcast(event) => self.events.push(event),
            Step::Publish { topic, frame } => self.frames.push((topic, frame)),
            Step::Append(action) => {
                if self.fail_append {
                    return Err(StorageError::Backend("append failed".to_owned()));
                }
                if self.log.iter().any(|a| a.ply == action.ply) {
                    return Err(StorageError::Conflict("duplicate ply".to_owned()));
                }
                self.log.push(action);
            }
            Step::SaveSnapshot(snapshot) => {
                let mut game = self.games.get(&self.id()).cloned().ok_or(StorageError::NotFound)?;
                snapshot.write_to(&mut game, self.now);
                self.store(game)?;
            }
            Step::Finish(outcome) => {
                let mut game = self.games.get(&self.id()).cloned().ok_or(StorageError::NotFound)?;
                game.finish(outcome, self.now);
                self.store(game)?;
                self.actor.mark_persisted();
            }
            Step::Notify(outcome) => {
                let game = self.games[&self.id()].clone();
                self.hook.push((game, outcome));
            }
        }
        Ok(())
    }

    fn perform_all(&mut self, steps: Vec<Step>) -> Option<StorageError> {
        for step in steps {
            if let Err(e) = self.perform(step) {
                return Some(e);
            }
        }
        None
    }

    fn submit(&mut self, player: Color, action: Action) -> Result<ActionEffect, GameSessionError> {
        match self.actor.handle(Command::SubmitAction { player, action }, self.now) {
            Reply::Submitted(turn) => {
                let failure = self.perform_all(turn.steps);
                settle(turn.reply, failure)
            }
            _ => panic!("a submitted action is answered as one"),
        }
    }

    fn timer(&mut self) {
        let steps = self.actor.on_timer(self.now);
        assert_eq!(self.perform_all(steps), None);
    }

    fn play_fools_mate(&mut self) -> ActionEffect {
        self.submit(Color::White, mv("f2f3")).unwrap();
        self.submit(Color::Black, mv("e7e5")).unwrap();
        self.submit(Color::White, mv("g2g4")).unwrap();
        self.submit(Color::Black, mv("d8h4")).unwrap()
    }

    fn finished_updates(&self) -> Vec<Game> {
        self.updates
            .iter()
            .filter(|g| g.lifecycle == GameLifecycle::Finished)
            .cloned()
            .collect()
    }
}

fn mate() -> Outcome {
    Outcome::win(Color::Black, EndReason::Checkmate)
}

#[test]
fn fools_mate_finishes_and_persists_with_correct_outcome() {
    let mut game = Runner::start(TimeControl::Unlimited);
    let effect = game.play_fools_mate();
    assert!(effect.status.is_finished());
    assert_eq!(game.actor.outcome(), Some(mate()));

    let finished = game.finished_updates();
    assert_eq!(finished.len(), 1, "the finished game should be persisted exactly once");
    assert_eq!(finished[0].id, game.id());
    assert_eq!(finished[0].lifecycle, GameLifecycle::Finished);
    assert_eq!(finished[0].outcome, Some(mate()));
}

#[test]
fn events_are_broadcast_to_subscribers() {
    let mut game = Runner::start(TimeControl::Unlimited);
    game.play_fools_mate();
    assert_eq!(game.events.len(), 4);
    assert!(!game.events[0].is_finished());
    assert_eq!(game.events[0].events.len(), 1);
    assert!(game.events[3].is_finished());
    assert_eq!(game.events[3].events.len(), 2);
    assert_eq!(game.events[3].status, GameStatus::Finished(mate()));
}

#[test]
fn out_of_turn_action_is_rejected() {
    let mut game = Runner::start(TimeControl::Unlimited);
    let err = game.submit(Color::Black, mv("e7e5")).unwrap_err();
    assert!(matches!(err, GameSessionError::Game(GameError::NotYourTurn)));
    assert!(game.updates.is_empty());
    assert_eq!(game.actor.outcome(), None);
    assert_eq!(game.actor.ply(), 0);
}

#[test]
fn illegal_action_is_rejected() {
    let mut game = Runner::start(TimeControl::Unlimited);
    let err = game.submit(Color::White, mv("e2e5")).unwrap_err();
    assert!(matches!(err, GameSessionError::Game(GameError::IllegalAction)));
    assert!(game.updates.is_empty());
    assert!(game.events.is_empty());
}

#[test]
fn acting_after_finish_is_rejected_and_persists_only_once() {
    let mut game = Runner::start(TimeControl::Unlimited);
    game.play_fools_mate();
    let err = game.submit(Color::White, mv("a2a3")).unwrap_err();
    assert!(matches!(err, GameSessionError::Game(GameError::Finished)));
    assert_eq!(game.finished_updates().len(), 1);
    assert_eq!(game.updates.len(), 5);
}

#[test]
fn views_and_legal_actions_are_served_through_the_handle() {
    let mut game = Runner::start(TimeControl::Unlimited);
    let now = game.now;
    match game.actor.handle(Command::LegalActions { player: Color::White }, now) {
        Reply::Actions(actions) => assert_eq!(actions.len(), 22),
        other => panic!("unexpected reply {other:?}"),
    }
    assert_eq!(
        game.actor.handle(Command::Status, now),
        Reply::Status(GameStatus::Ongoing)
    );
    assert_eq!(game.actor.handle(Command::Outcome, now), Reply::Outcome(None));
    let white = game.actor.handle(Command::ViewFor { player: Color::White }, now);
    let black = game.actor.handle(Command::ViewFor { player: Color::Black }, now);
    let spectator = game.actor.handle(Command::SpectatorView, now);
    assert_eq!(white, black);
    assert_eq!(white, spectator);
}

#[test]
fn persistence_failure_on_game_end_surfaces_as_storage_error() {
    let mut game = Runner::start(TimeControl::Unlimited);
    game.fail_finish = true;
    game.submit(Color::White, mv("f2f3")).unwrap();
    game.submit(Color::Black, mv("e7e5")).unwrap();
    game.submit(Color::White, mv("g2g4")).unwrap();
    let err = game.submit(Color::Black, mv("d8h4")).unwrap_err();
    assert!(matches!(err, GameSessionError::Storage(_)));
    assert_eq!(game.actor.outcome(), Some(mate()));
}

#[test]
fn move_events_carry_live_clock_snapshots() {
    let mut game = Runner::start(real_time(300, 2));
    game.now = after(10);
    game.submit(Color::White, mv("e2e4")).unwrap();
    let clock = game.events[0].clock.as_ref().expect("real-time events carry a clock");
    assert_eq!(clock.white_remaining(), Duration::from_secs(292));
    assert_eq!(clock.black_remaining(), Duration::from_secs(300));

    game.now = after(15);
    game.submit(Color::Black, mv("e7e5")).unwrap();
    let clock = game.events[1].clock.as_ref().unwrap();
    assert_eq!(clock.white_remaining(), Duration::from_secs(292));
    assert_eq!(clock.black_remaining(), Duration::from_secs(297));
}

#[test]
fn player_who_stops_moving_loses_on_time() {
    let mut game = Runner::start(real_time(3, 0));
    assert_eq!(game.actor.wake_at(), Some(after(3)));
    game.now = after(2);
    game.timer();
    assert!(game.events.is_empty(), "an early timer does nothing");

    game.now = after(4);
    game.timer();
    let timeout = Outcome::win(Color::Black, EndReason::Timeout);
    assert_eq!(game.events.len(), 1);
    assert!(game.events[0].is_finished());
    assert_eq!(game.events[0].status, GameStatus::Finished(timeout.clone()));
    assert_eq!(game.actor.outcome(), Some(timeout.clone()));
    assert_eq!(game.updates.len(), 1);
    assert_eq!(game.updates[0].lifecycle, GameLifecycle::Finished);
    assert_eq!(game.updates[0].outcome, Some(timeout));
    assert!(game.actor.legal_actions(Color::White).is_empty());

    game.now = after(5);
    game.timer();
    assert_eq!(game.events.len(), 1, "a game is lost on time once");
    assert_eq!(game.actor.wake_at(), None);
}

#[test]
fn moving_after_flagging_is_rejected() {
    let mut game = Runner::start(real_time(2, 0));
    game.now = after(5);
    let err = game.submit(Color::White, mv("e2e4")).unwrap_err();
    assert!(matches!(err, GameSessionError::Game(GameError::Finished)));
    assert_eq!(
        game.actor.outcome(),
        Some(Outcome::win(Color::Black, EndReason::Timeout))
    );
    assert_eq!(game.finished_updates().len(), 1);
    let again = game.submit(Color::White, mv("e2e4")).unwrap_err();
    assert!(matches!(again, GameSessionError::Game(GameError::Finished)));
    assert_eq!(game.finished_updates().len(), 1);
}

#[test]
fn unlimited_game_never_flags_and_omits_clock() {
    let mut game = Runner::start(TimeControl::Unlimited);
    game.now = after(10 * 24 * 60 * 60);
    game.timer();
    assert_eq!(game.actor.status(), GameStatus::Ongoing);
    assert!(game.updates.is_empty());
    game.submit(Color::White, mv("e2e4")).unwrap();
    assert!(game.events[0].clock.is_none());
}

#[test]
fn completion_hook_fires_once_with_finished_game_and_outcome() {
    let mut game = Runner::start(TimeControl::Unlimited);
    game.play_fools_mate();
    assert_eq!(game.hook.len(), 1, "the hook must fire exactly once");
    let (record, outcome) = &game.hook[0];
    assert_eq!(record.id, game.id());
    assert_eq!(record.lifecycle, GameLifecycle::Finished);
    assert_eq!(*outcome, mate());
    assert_eq!(record.outcome.as_ref(), Some(outcome));
}

#[test]
fn completion_hook_does_not_fire_while_the_game_is_ongoing() {
    let mut game = Runner::start(TimeControl::Unlimited);
    game.submit(Color::White, mv("e2e4")).unwrap();
    assert!(game.hook.is_empty(), "the hook must not fire on an ongoing game");
}

#[test]
fn completion_hook_is_not_run_when_persistence_fails() {
    let mut game = Runner::start(TimeControl::Unlimited);
    game.fail_finish = true;
    game.submit(Color::White, mv("f2f3")).unwrap();
    game.submit(Color::Black, mv("e7e5")).unwrap();
    game.submit(Color::White, mv("g2g4")).unwrap();
    let err = game.submit(Color::Black, mv("d8h4")).unwrap_err();
    assert!(matches!(err, GameSessionError::Storage(_)));
    assert!(game.hook.is_empty(), "the hook must not fire when persistence fails");
}

#[test]
fn each_applied_move_is_recorded_and_snapshots_the_live_game() {
    let mut game = Runner::start(real_time(300, 2));
    let moves = [
        (Color::White, "f2f3"),
        (Color::Black, "e7e5"),
        (Color::White, "g2g4"),
        (Color::Black, "d8h4"),
    ];
    for (i, (player, uci)) in moves.iter().enumerate() {
        game.now = after(i as u64 + 1);
        game.submit(*player, mv(uci)).unwrap();
    }

    assert_eq!(game.log.len(), 4, "one log row per applied move");
    for (i, ((player, uci), row)) in moves.iter().zip(&game.log).enumerate() {
        assert_eq!(row.ply, i as u32, "plies increase monotonically from 0");
        assert_eq!(row.player, *player);
        assert_eq!(row.action, mv(uci), "the exact submitted action is logged");
        assert!(row.clock_white_ms.is_some());
        assert!(row.clock_black_ms.is_some());
    }
    assert_eq!(game.log[0].clock_white_ms, Some(301_000));
    assert_eq!(game.log[0].clock_black_ms, Some(300_000));
    assert_eq!(game.log[1].clock_white_ms, Some(301_000));
    assert_eq!(game.log[1].clock_black_ms, Some(301_000));

    let snapshots: Vec<Game> = game
        .updates
        .iter()
        .filter(|g| g.lifecycle == GameLifecycle::Active)
        .cloned()
        .collect();
    assert_eq!(snapshots.len(), 4, "one live-snapshot write per applied move");
    for (i, snap) in snapshots.iter().enumerate() {
        assert_eq!(snap.ply, i as u32 + 1, "snapshot ply counts applied moves");
    }
    assert_eq!(snapshots[0].side_to_move, Some(Color::Black));
    assert_eq!(snapshots[1].side_to_move, Some(Color::White));
    assert_eq!(snapshots[2].side_to_move, Some(Color::Black));
    assert_eq!(
        snapshots[3].side_to_move, None,
        "the finishing move records no side to move"
    );
    assert_eq!(snapshots[0].clock_white_ms, game.log[0].clock_white_ms);
    assert_eq!(snapshots[0].clock_black_ms, game.log[0].clock_black_ms);

    let finished = game.finished_updates();
    assert_eq!(finished.len(), 1, "the game is finished exactly once");
    assert_eq!(finished[0].lifecycle, GameLifecycle::Finished);
    assert_eq!(finished[0].outcome, Some(mate()));
    assert_eq!(game.actor.outcome(), Some(mate()));
}

#[test]
fn untimed_game_records_no_clocks() {
    let mut game = Runner::start(TimeControl::Unlimited);
    game.submit(Color::White, mv("e2e4")).unwrap();
    assert_eq!(game.log.len(), 1);
    assert_eq!(game.log[0].ply, 0);
    assert_eq!(game.log[0].player, Color::White);
    assert!(game.log[0].clock_white_ms.is_none());
    assert!(game.log[0].clock_black_ms.is_none());
    assert_eq!(game.updates.len(), 1);
    assert_eq!(game.updates[0].ply, 1);
    assert_eq!(game.updates[0].side_to_move, Some(Color::Black));
    assert!(game.updates[0].clock_white_ms.is_none());
}

#[test]
fn append_failure_surfaces_as_storage_error_without_corrupting_the_session() {
    let mut game = Runner::start(TimeControl::Unlimited);
    game.fail_append = true;
    let err = game.submit(Color::White, mv("e2e4")).unwrap_err();
    assert!(matches!(err, GameSessionError::Storage(_)));
    assert_eq!(game.actor.status(), GameStatus::Ongoing);
    let out_of_turn = game.submit(Color::White, mv("d2d4")).unwrap_err();
    assert!(matches!(
        out_of_turn,
        GameSessionError::Game(GameError::NotYourTurn)
    ));
    assert!(game.updates.is_empty());
}

#[test]
fn topic_is_namespaced_by_game_id() {
    let id = GameId::new();
    assert_eq!(spectator_topic(id), format!("game:{}:spectator", id.to_string()));
}

// Reads a frame without a clock out of JSON bytes.
fn frame_from_bytes(bytes: &[u8]) -> SpectatorFrame {
    let value: serde_json::Value = serde_json::from_slice(bytes).unwrap();
    let entries = value["view"].as_object().unwrap().iter();
    let view = Json::Object(
        entries.map(|(k, v)| (k.clone(), text(v.as_str().unwrap()))).collect(),
    );
    assert_eq!(value["status"].as_str(), Some("ongoing"));
    assert!(value.get("clock").is_none());
    let ply = value["ply"].as_u64().unwrap() as u32;
    SpectatorFrame::new(PlayerView::new(view), GameStatus::Ongoing, None, ply)
}

#[test]
fn frame_roundtrips_through_bytes() {
    let frame = SpectatorFrame::new(
        PlayerView::new(Json::Object(vec![("fen".to_owned(), text("startpos"))])),
        GameStatus::Ongoing,
        None,
        3,
    );
    let bytes = frame.to_bytes().unwrap();
    let back = frame_from_bytes(&bytes);
    assert_eq!(back, frame);
}

#[test]
fn clock_is_omitted_when_absent() {
    let frame = SpectatorFrame::new(PlayerView::new(Json::Null), GameStatus::Ongoing, None, 0);
    let json = String::from_utf8(frame.to_bytes().unwrap()).unwrap();
    assert!(!json.contains("clock"), "absent clock must be skipped: {json}");
    assert_eq!(json, "{\"view\":null,\"status\":\"ongoing\",\"ply\":0}");
}

#[test]
fn a_frame_shows_both_clocks_in_whole_seconds() {
    let clock = Clock::with_times(
        Duration::from_millis(299_999),
        Duration::from_secs(7),
        Timestamp::from_unix_nanos(1_500_000_000),
    );
    let frame = SpectatorFrame::new(
        PlayerView::new(Json::Null),
        GameStatus::Finished(mate()),
        Some(clock),
        4,
    );
    assert_eq!(
        String::from_utf8(frame.to_bytes().unwrap()).unwrap(),
        "{\"view\":null,\"status\":{\"finished\":{\"winner\":\"black\",\"reason\":\"checkmate\"}},\
         \"clock\":{\"white_remaining\":299,\"black_remaining\":7,\
         \"turn_started_at\":\"1970-01-01T00:00:01.5Z\"},\"ply\":4}"
    );
    let idle = Clock::new(Duration::from_secs(60));
    assert_eq!(
        idle.to_json().unwrap().to_text(),
        "{\"white_remaining\":60,\"black_remaining\":60}"
    );
}

#[test]
fn a_turn_that_began_before_the_year_zero_cannot_be_written() {
    let span = Duration::from_secs(60);
    let first = Timestamp::from_unix_nanos(mcs::time::YEAR_ZERO_NANOS);
    let writable = Clock::with_times(span, span, first);
    let early = Clock::with_times(
        span,
        span,
        Timestamp::from_unix_nanos(mcs::time::YEAR_ZERO_NANOS - 1),
    );
    let frame = |clock: Clock| {
        SpectatorFrame::new(PlayerView::new(Json::Null), GameStatus::Ongoing, Some(clock), 0)
    };
    assert_eq!(first.unwrap().to_rfc3339().as_deref(), Some("0000-01-01T00:00:00Z"));
    assert!(frame(writable).to_bytes().is_ok());
    assert_eq!(frame(early).to_bytes(), Err(FrameError::InstantOutOfRange));
    assert_eq!(FrameError::InstantOutOfRange.to_string(), "the instant has no RFC 3339 form");
}

#[test]
fn a_finished_game_takes_no_action_from_either_side() {
    let mut game = Runner::start(TimeControl::Unlimited);
    game.play_fools_mate();
    assert!(game.actor.legal_actions(Color::White).is_empty());
    assert!(game.actor.legal_actions(Color::Black).is_empty());
    for player in [Color::White, Color::Black] {
        let turn = game.actor.submit_action(player, &mv("a2a3"), game.now);
        assert!(matches!(turn.reply, Err(GameSessionError::Game(GameError::Finished))));
        assert!(turn.steps.is_empty());
    }
    assert_eq!(game.actor.status(), GameStatus::Finished(mate()));
    assert_eq!(game.finished_updates()[0].side_to_move, None);
}

#[test]
fn spectators_receive_the_public_position_with_each_action() {
    let mut game = Runner::start(real_time(300, 2));
    game.now = after(1);
    game.submit(Color::White, mv("e2e4")).unwrap();
    let (topic, frame) = &game.frames[0];
    assert_eq!(*topic, spectator_topic(game.id()));
    assert_eq!(frame.view, game.actor.spectator_view());
    assert_eq!(frame.status, GameStatus::Ongoing);
    assert_eq!(frame.ply, 1);
    assert_eq!(
        frame.clock.as_ref().unwrap().turn_started_at(),
        Some(after(1))
    );
}

#[test]
fn the_last_update_of_a_finished_game_has_no_running_clock() {
    let mut game = Runner::start(real_time(300, 0));
    game.now = after(1);
    game.play_fools_mate();
    let clock = game.events[3].clock.as_ref().unwrap();
    assert_eq!(clock.turn_started_at(), None);
    game.now = after(100_000);
    game.timer();
    assert_eq!(game.events.len(), 4, "a finished game is not lost on time");
}

#[test]
fn commands_are_named_without_their_payload() {
    let submit = Command::SubmitAction { player: Color::White, action: mv("e2e4") };
    assert_eq!(submit.to_string(), "SubmitAction(white)");
    assert_eq!(Command::ViewFor { player: Color::Black }.to_string(), "ViewFor(black)");
    assert_eq!(
        Command::LegalActions { player: Color::White }.to_string(),
        "LegalActions(white)"
    );
    assert_eq!(Command::SpectatorView.to_string(), "SpectatorView");
    assert_eq!(Command::Status.to_string(), "Status");
    assert_eq!(Command::Outcome.to_string(), "Outcome");
}

#[test]
fn session_errors_render_as_documented() {
    assert_eq!(
        GameSessionError::Game(GameError::NotYourTurn).to_string(),
        "game error: it is not your turn to act"
    );
    assert_eq!(
        GameSessionError::Storage(StorageError::NotFound).to_string(),
        "storage error: record not found"
    );
    assert_eq!(
        GameSessionError::Storage(StorageError::Conflict("x".to_owned())).to_string(),
        "storage error: conflict: x"
    );
    assert_eq!(
        GameSessionError::ActorUnavailable.to_string(),
        "game actor is unavailable (mailbox closed)"
    );
}
