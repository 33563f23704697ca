use std::sync::Arc;

use mcs::domain::game::{Game, GameLifecycle};
use mcs::domain::ids::UserId;
use mcs::domain::time_control::TimeControl;
use mcs::game::actor::{GameActor, Step};
use mcs::game::recovery::{recover_game, recover_with, resume_clock, RecoveryError};
use mcs::game::storage::{RecordedAction, StorageError};
use mcs::time::{Duration, Timestamp};
use mcs::variant::color::Color;
use mcs::variant::error::GameError;
use mcs::variant::json::Json;
use mcs::variant::payload::{Action, PlayerView};
use mcs::variant::registry::{VariantFactory, VariantOptions, VariantRegistry};
use mcs::variant::session::GameSession;
use mcs::variant::status::{ActionEffect, EndReason, GameStatus, Outcome};

// A session that accepts any move of the side to move, except `illegal`.
struct Notebook {
    moves: Vec<String>,
}

fn mv(uci: &str) -> Action {
    Action::new(Json::Str(uci.to_owned()))
}

impl GameSession for Notebook {
    fn variant_id(&self) -> &'static str {
        "standard"
    }

    fn to_move(&self) -> Color {
        if self.moves.len() % 2 == 0 {
            Color::White
        } else {
            Color::Black
        }
    }

    fn status(&self) -> GameStatus {
        GameStatus::Ongoing
    }

    fn legal_actions(&self, player: Color) -> Vec<Action> {
        if player == self.to_move() {
            vec![mv("b8c6")]
        } else {
            Vec::new()
        }
    }

    fn apply(&mut self, player: Color, action: &Action) -> Result<ActionEffect, GameError> {
        if player != self.to_move() {
            return Err(GameError::NotYourTurn);
        }
        match action.as_value().as_str() {
            Some("illegal") | None => Err(GameError::IllegalAction),
            Some(uci) => {
                self.moves.push(uci.to_owned());
                Ok(ActionEffect { status: GameStatus::Ongoing, events: Vec::new() })
            }
        }
    }

    fn view_for(&self, _player: Color) -> PlayerView {
        PlayerView::new(Json::Str(self.moves.join(" ")))
    }

    fn spectator_view(&self) -> PlayerView {
        self.view_for(Color::White)
    }

    fn outcome(&self) -> Option<Outcome> {
        None
    }
}

struct NotebookFactory;

impl VariantFactory for NotebookFactory {
    fn id(&self) -> &'static str {
        "standard"
    }

    fn display_name(&self) -> &str {
        "Standard Chess"
    }

    fn new_game(&self, _options: &VariantOptions) -> Result<Box<dyn GameSession>, GameError> {
        Ok(Box::new(Notebook { moves: Vec::new() }))
    }
}

fn registry() -> VariantRegistry {
    let mut registry = VariantRegistry::new();
    registry.register(Arc::new(NotebookFactory));
    registry
}

fn at(secs: u64) -> Timestamp {
    Timestamp::unix_epoch()
        .checked_add(Duration::from_secs(secs))
        .unwrap()
}

fn seed_active_game() -> Game {
    let mut game = Game::new(
        "standard".to_owned(),
        VariantOptions::default(),
        UserId::new(),
        UserId::new(),
        TimeControl::RealTime {
            initial: Duration::from_secs(300),
            increment: Duration::from_secs(2),
        },
        at(0),
    );
    game.lifecycle = GameLifecycle::Active;
    game
}

// Plays a move and keeps what the actor wants stored.
fn play<S: GameSession + ?Sized>(
    actor: &mut GameActor<S>,
    game: &mut Game,
    log: &mut Vec<RecordedAction>,
    player: Color,
    uci: &str,
    now: Timestamp,
) {
    let turn = actor.submit_action(player, &mv(uci), now);
    assert!(turn.reply.is_ok());
    for step in turn.steps {
        match step {
            Step::Append(action) => log.push(action),
            Step::SaveSnapshot(snapshot) => snapshot.write_to(game, now),
            _ => {}
        }
    }
}

#[test]
fn game_in_progress_is_recovered_after_an_actor_restart() {
    let mut game = seed_active_game();
    let mut log: Vec<RecordedAction> = Vec::new();
    let registry = registry();
    let session = match registry.new_game("standard", &VariantOptions::default()) {
        Ok(session) => session,
        Err(e) => panic!("standard session: {}", e.to_string()),
    };
    let mut actor = GameActor::new(game.id, session, &game.time_control, at(0));
    for (i, (player, uci)) in [
        (Color::White, "e2e4"),
        (Color::Black, "e7e5"),
        (Color::White, "g1f3"),
    ]
    .iter()
    .enumerate()
    {
        play(&mut actor, &mut game, &mut log, *player, uci, at(i as u64 + 1));
    }
    let pre_view = actor.view_for(Color::White);
    let pre_spectator = actor.spectator_view();
    assert_eq!(actor.status(), GameStatus::Ongoing);
    assert_eq!(game.ply, 3, "three half-moves were recorded");
    assert_eq!(game.side_to_move, Some(Color::Black));
    let pre_clock_white = game.clock_white_ms.expect("white clock recorded");
    let pre_clock_black = game.clock_black_ms.expect("black clock recorded");
    drop(actor);

    // Long after the stop, the pause is charged to nobody.
    let later = at(10_000);
    let mut recovered = match recover_game(&game, &registry, Ok(log.clone()), later) {
        Ok(actor) => actor,
        Err(e) => panic!("recovery succeeds: {}", e.to_string()),
    };
    assert_eq!(recovered.game_id(), game.id);
    assert_eq!(recovered.view_for(Color::White), pre_view);
    assert_eq!(recovered.spectator_view(), pre_spectator);
    assert_eq!(recovered.status(), GameStatus::Ongoing);
    assert!(!recovered.legal_actions(Color::Black).is_empty());

    play(&mut recovered, &mut game, &mut log, Color::Black, "b8c6", at(10_001));
    assert_eq!(game.ply, 4, "the count goes on after recovery");
    assert_eq!(game.side_to_move, Some(Color::White));
    let plies: Vec<u32> = log.iter().map(|a| a.ply).collect();
    assert_eq!(plies, vec![0, 1, 2, 3], "plies are contiguous from 0");
    assert_eq!(log[3].action, mv("b8c6"));
    assert_eq!(log[3].player, Color::Black);
    assert_eq!(game.clock_white_ms, Some(pre_clock_white));
    assert_eq!(game.clock_black_ms, Some(pre_clock_black - 1_000 + 2_000));
}

#[test]
fn recovering_an_unplayed_game_resumes_at_the_start_with_a_full_clock() {
    let mut game = seed_active_game();
    let mut log: Vec<RecordedAction> = Vec::new();
    let mut recovered = match recover_game(&game, &registry(), Ok(Vec::new()), at(5)) {
        Ok(actor) => actor,
        Err(e) => panic!("recovery of an unplayed game succeeds: {}", e.to_string()),
    };
    assert_eq!(recovered.wake_at(), Some(at(305)));
    play(&mut recovered, &mut game, &mut log, Color::White, "d2d4", at(5));
    assert_eq!(log.len(), 1);
    assert_eq!(log[0].ply, 0, "the first move is logged at ply 0");
}

fn recorded(ply: u32, player: Color, uci: &str) -> RecordedAction {
    RecordedAction {
        ply,
        player,
        action: mv(uci),
        clock_white_ms: None,
        clock_black_ms: None,
    }
}

#[test]
fn an_unknown_variant_cannot_be_recovered() {
    let game = seed_active_game();
    let empty = VariantRegistry::new();
    let err = recover_game(&game, &empty, Ok(Vec::new()), at(0)).err().unwrap();
    assert_eq!(
        err,
        RecoveryError::Session {
            variant_id: "standard".to_owned(),
            source: GameError::UnknownVariant("standard".to_owned()),
        }
    );
    assert_eq!(
        err.to_string(),
        "cannot create a session for variant \"standard\": unknown variant: standard"
    );
}

#[test]
fn an_unreadable_log_is_reported() {
    let game = seed_active_game();
    let err = recover_game(&game, &registry(), Err(StorageError::NotFound), at(0)).err().unwrap();
    assert_eq!(err, RecoveryError::Log(StorageError::NotFound));
    assert_eq!(err.to_string(), "cannot read the action log: record not found");
}

#[test]
fn a_diverging_log_names_the_first_rejected_action() {
    let game = seed_active_game();
    let log = vec![
        recorded(0, Color::White, "e2e4"),
        recorded(1, Color::Black, "illegal"),
        recorded(2, Color::White, "illegal"),
    ];
    let err = recover_game(&game, &registry(), Ok(log), at(0)).err().unwrap();
    assert_eq!(err, RecoveryError::Replay { ply: 1, source: GameError::IllegalAction });
    assert_eq!(
        err.to_string(),
        "replay diverged at ply 1: the recorded action was rejected by the rebuilt session: illegal action"
    );
}

#[test]
fn recovery_takes_any_created_session() {
    let game = seed_active_game();
    let log = vec![recorded(0, Color::White, "e2e4")];
    let created: Result<Box<Notebook>, GameError> = Ok(Box::new(Notebook { moves: Vec::new() }));
    let actor = match recover_with(&game, created, Ok(log), at(0)) {
        Ok(actor) => actor,
        Err(e) => panic!("{}", e.to_string()),
    };
    assert_eq!(actor.view_for(Color::White), PlayerView::new(Json::Str("e2e4".to_owned())));
}

#[test]
fn a_half_stored_clock_counts_the_missing_side_as_out_of_time() {
    let mut game = seed_active_game();
    game.clock_white_ms = Some(1_500);
    let resumed = resume_clock(&game);
    assert_eq!(resumed.white, Duration::from_millis(1_500));
    assert_eq!(resumed.black, Duration::zero());
    game.clock_white_ms = None;
    let full = resume_clock(&game);
    assert_eq!(full.white, Duration::from_secs(300));
    assert_eq!(full.black, Duration::from_secs(300));
    game.time_control = TimeControl::Unlimited;
    assert_eq!(resume_clock(&game).white, Duration::zero());
}

#[test]
fn the_log_holds_what_the_session_played() {
    let mut game = seed_active_game();
    let mut log: Vec<RecordedAction> = Vec::new();
    let session = Box::new(Notebook { moves: Vec::new() });
    let mut actor = GameActor::new(game.id, session, &game.time_control, at(0));
    play(&mut actor, &mut game, &mut log, Color::White, "e2e4", at(1));
    let refused = actor.submit_action(Color::Black, &mv("illegal"), at(2));
    assert!(refused.reply.is_err());
    assert!(refused.steps.is_empty());
    play(&mut actor, &mut game, &mut log, Color::Black, "e7e5", at(3));
    let played: Vec<&str> = log.iter().filter_map(|a| a.action.as_value().as_str()).collect();
    assert_eq!(actor.view_for(Color::White), PlayerView::new(Json::Str(played.join(" "))));
}

#[test]
fn a_pause_costs_nobody_time() {
    let mut game = seed_active_game();
    let mut log: Vec<RecordedAction> = Vec::new();
    let session = Box::new(Notebook { moves: Vec::new() });
    let mut actor = GameActor::new(game.id, session, &game.time_control, at(0));
    let odd = Timestamp::from_unix_nanos(1_234_567_890).unwrap();
    play(&mut actor, &mut game, &mut log, Color::White, "e2e4", odd);
    // White spent 1.23456789 of 300 seconds and gained 2: 300.76543211 seconds.
    assert_eq!(game.clock_white_ms, Some(300_765));
    let created: Result<Box<Notebook>, GameError> = Ok(Box::new(Notebook { moves: Vec::new() }));
    let resumed = match recover_with(&game, created, Ok(log), at(9_000)) {
        Ok(actor) => actor,
        Err(e) => panic!("{}", e.to_string()),
    };
    assert_eq!(resumed.ply(), 1);
    assert_eq!(resumed.wake_at(), Some(at(9_300)));
}

// A variant that hands its options to the game, which shows them.
struct Echo {
    id: &'static str,
}

struct EchoSession {
    id: &'static str,
    options: Json,
    notebook: Notebook,
}

impl GameSession for EchoSession {
    fn variant_id(&self) -> &'static str {
        self.id
    }

    fn to_move(&self) -> Color {
        self.notebook.to_move()
    }

    fn status(&self) -> GameStatus {
        GameStatus::Ongoing
    }

    fn legal_actions(&self, player: Color) -> Vec<Action> {
        self.notebook.legal_actions(player)
    }

    fn apply(&mut self, player: Color, action: &Action) -> Result<ActionEffect, GameError> {
        self.notebook.apply(player, action)
    }

    fn view_for(&self, player: Color) -> PlayerView {
        PlayerView::new(Json::Array(vec![
            Json::Str(self.id.to_owned()),
            self.options.clone(),
            self.notebook.view_for(player).as_value().clone(),
        ]))
    }

    fn spectator_view(&self) -> PlayerView {
        self.view_for(Color::White)
    }

    fn outcome(&self) -> Option<Outcome> {
        None
    }
}

impl VariantFactory for Echo {
    fn id(&self) -> &'static str {
        self.id
    }

    fn display_name(&self) -> &str {
        "Echo"
    }

    fn new_game(&self, options: &VariantOptions) -> Result<Box<dyn GameSession>, GameError> {
        Ok(Box::new(EchoSession {
            id: self.id,
            options: options.as_value().clone(),
            notebook: Notebook { moves: Vec::new() },
        }))
    }
}

#[test]
fn a_recovered_game_has_the_stored_variant_and_options() {
    let mut registry = registry();
    registry.register(Arc::new(Echo { id: "echo" }));
    registry.register(Arc::new(Echo { id: "reverb" }));
    let mut game = seed_active_game();
    game.variant_id = "reverb".to_owned();
    game.variant_options = VariantOptions::new(Json::Number("960".to_owned()));
    let log = vec![recorded(0, Color::White, "e2e4")];
    let actor = match recover_game(&game, &registry, Ok(log), at(0)) {
        Ok(actor) => actor,
        Err(e) => panic!("{}", e.to_string()),
    };
    assert_eq!(
        actor.spectator_view().as_value().to_text(),
        "[\"reverb\",960,\"e2e4\"]"
    );
}

#[test]
fn a_restart_changes_nothing_that_anyone_can_see() {
    let mut game = seed_active_game();
    let mut log: Vec<RecordedAction> = Vec::new();
    let session = Box::new(Notebook { moves: Vec::new() });
    let mut lost = GameActor::new(game.id, session, &game.time_control, at(0));
    play(&mut lost, &mut game, &mut log, Color::White, "e2e4", at(1));
    play(&mut lost, &mut game, &mut log, Color::Black, "e7e5", at(2));
    let mut rebuilt = match recover_game(&game, &registry(), Ok(log), at(5_000)) {
        Ok(actor) => actor,
        Err(e) => panic!("{}", e.to_string()),
    };
    for player in [Color::White, Color::Black] {
        assert_eq!(rebuilt.view_for(player), lost.view_for(player));
        assert_eq!(rebuilt.legal_actions(player), lost.legal_actions(player));
    }
    assert_eq!(rebuilt.spectator_view(), lost.spectator_view());
    assert_eq!(rebuilt.status(), lost.status());
    assert_eq!(rebuilt.outcome(), lost.outcome());
    assert_eq!(rebuilt.ply(), 2);
    let mut next: Vec<RecordedAction> = Vec::new();
    play(&mut rebuilt, &mut game, &mut next, Color::White, "g1f3", at(5_001));
    assert_eq!(next[0].ply, 2);
    assert_eq!(game.ply, 3);
}

// A session whose game ends with the first move.
struct Blitz {
    over: bool,
}

fn resigned() -> Outcome {
    Outcome::win(Color::White, EndReason::Resignation)
}

impl GameSession for Blitz {
    fn variant_id(&self) -> &'static str {
        "blitz"
    }

    fn to_move(&self) -> Color {
        Color::White
    }

    fn status(&self) -> GameStatus {
        if self.over {
            GameStatus::Finished(resigned())
        } else {
            GameStatus::Ongoing
        }
    }

    fn legal_actions(&self, player: Color) -> Vec<Action> {
        if self.over || player != Color::White {
            Vec::new()
        } else {
            vec![mv("end")]
        }
    }

    fn apply(&mut self, player: Color, _action: &Action) -> Result<ActionEffect, GameError> {
        if self.over {
            return Err(GameError::Finished);
        }
        if player != Color::White {
            return Err(GameError::NotYourTurn);
        }
        self.over = true;
        Ok(ActionEffect { status: self.status(), events: Vec::new() })
    }

    fn view_for(&self, _player: Color) -> PlayerView {
        PlayerView::new(Json::Bool(self.over))
    }

    fn spectator_view(&self) -> PlayerView {
        self.view_for(Color::White)
    }

    fn outcome(&self) -> Option<Outcome> {
        if self.over {
            Some(resigned())
        } else {
            None
        }
    }
}

#[test]
fn a_game_that_its_log_ends_is_not_lost_on_time() {
    let mut game = seed_active_game();
    game.clock_white_ms = Some(1);
    game.clock_black_ms = Some(1);
    let created: Result<Box<Blitz>, GameError> = Ok(Box::new(Blitz { over: false }));
    let log = vec![recorded(0, Color::White, "end")];
    let mut actor = match recover_with(&game, created, Ok(log), at(0)) {
        Ok(actor) => actor,
        Err(e) => panic!("{}", e.to_string()),
    };
    assert_eq!(actor.wake_at(), None);
    assert!(actor.on_timer(at(9_000)).is_empty());
    let turn = actor.submit_action(Color::White, &mv("end"), at(9_000));
    assert!(turn.reply.is_err());
    assert!(turn.steps.is_empty());
    assert_eq!(actor.status(), GameStatus::Finished(resigned()));
    assert_eq!(actor.outcome(), Some(resigned()));
    let fresh = GameActor::new(game.id, Box::new(Blitz { over: true }), &game.time_control, at(0));
    assert_eq!(fresh.wake_at(), None);
}

// A variant that refuses every set of options.
struct Refusing;

impl VariantFactory for Refusing {
    fn id(&self) -> &'static str {
        "refusing"
    }

    fn display_name(&self) -> &str {
        "Refusing"
    }

    fn new_game(&self, _options: &VariantOptions) -> Result<Box<dyn GameSession>, GameError> {
        Err(GameError::IllegalAction)
    }
}

#[test]
fn a_refusal_by_the_factory_is_told_before_an_unreadable_log() {
    let mut registry = registry();
    registry.register(Arc::new(Refusing));
    let mut game = seed_active_game();
    game.variant_id = "refusing".to_owned();
    let log = Err(StorageError::Backend("gone".to_owned()));
    match recover_game(&game, &registry, log, at(0)) {
        Err(RecoveryError::Session { variant_id, source }) => {
            assert_eq!(variant_id, "refusing");
            assert_eq!(source, GameError::IllegalAction);
        }
        Err(e) => panic!("{}", e.to_string()),
        Ok(_) => panic!("the factory refuses"),
    }
}
