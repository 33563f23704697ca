use std::sync::Arc;

use mcs::variant::color::Color;
use mcs::variant::error::GameError;
use mcs::variant::json::Json;
use mcs::variant::payload::{Action, Event, PlayerView};
use mcs::variant::registry::{VariantFactory, VariantOptions, VariantRegistry};
use mcs::variant::session::GameSession;
use mcs::variant::status::{ActionEffect, EndReason, GameStatus, Outcome};

fn text(s: &str) -> Json {
    Json::Str(s.to_owned())
}

fn object(entries: Vec<(&str, Json)>) -> Json {
    Json::Object(entries.into_iter().map(|(k, v)| (k.to_owned(), v)).collect())
}

fn decode_play(v: &Json) -> Result<(), String> {
    if v.as_str() == Some("Play") {
        Ok(())
    } else {
        Err("expected Play".to_owned())
    }
}

// A toy variant: whoever acts first wins, and the only action is `Play`.
struct ToyGame {
    status: GameStatus,
}

impl GameSession for ToyGame {
    fn variant_id(&self) -> &'static str {
        "toy"
    }

    fn to_move(&self) -> Color {
        Color::White
    }

    fn status(&self) -> GameStatus {
        self.status.clone()
    }

    fn legal_actions(&self, player: Color) -> Vec<Action> {
        if self.status.is_finished() || player != self.to_move() {
            return Vec::new();
        }
        vec![Action::new(text("Play"))]
    }

    fn apply(&mut self, player: Color, action: &Action) -> Result<ActionEffect, GameError> {
        if self.status.is_finished() {
            return Err(GameError::Finished);
        }
        if player != self.to_move() {
            return Err(GameError::NotYourTurn);
        }
        action
            .to_typed(decode_play)
            .map_err(|e| GameError::InvalidActionPayload(e.to_string()))?;
        let outcome = Outcome::win(player, EndReason::Other("first to act".to_owned()));
        self.status = GameStatus::Finished(outcome);
        Ok(ActionEffect {
            status: self.status.clone(),
            events: vec![Event::new(object(vec![("Won", text(&player.to_string()))]))],
        })
    }

    fn view_for(&self, _player: Color) -> PlayerView {
        PlayerView::new(object(vec![
            ("to_move", text("white")),
            ("finished", Json::Bool(self.status.is_finished())),
        ]))
    }

    fn spectator_view(&self) -> PlayerView {
        self.view_for(Color::White)
    }

    fn outcome(&self) -> Option<Outcome> {
        match &self.status {
            GameStatus::Finished(o) => Some(o.clone()),
            GameStatus::Ongoing => None,
        }
    }
}

struct ToyFactory;

impl VariantFactory for ToyFactory {
    fn id(&self) -> &'static str {
        "toy"
    }

    fn display_name(&self) -> &str {
        "Toy Variant"
    }

    fn new_game(&self, options: &VariantOptions) -> Result<Box<dyn GameSession>, GameError> {
        if !options.as_value().is_null() {
            options.to_typed(|v: &Json| match v {
                Json::Object(_) => Ok(()),
                _ => Err("expected an object".to_owned()),
            })?;
        }
        Ok(Box::new(ToyGame { status: GameStatus::Ongoing }))
    }
}

#[test]
fn color_opposite_and_display() {
    assert_eq!(Color::White.opposite(), Color::Black);
    assert_eq!(Color::Black.opposite(), Color::White);
    assert_eq!(Color::White.to_string(), "white");
    assert_eq!(Color::Black.to_string(), "black");
}

#[test]
fn action_payload_round_trips() {
    let action = Action::from_typed(Ok(text("Play"))).unwrap();
    assert_eq!(action.to_typed(decode_play), Ok(()));
    assert_eq!(action.as_value(), &text("Play"));
    assert_eq!(action.clone(), action);
    assert_eq!(action.into_value(), text("Play"));
}

#[test]
fn payloads_that_cannot_be_encoded_report_why() {
    assert_eq!(
        Event::from_typed(Err("no JSON form".to_owned())),
        Err(GameError::Serialization("no JSON form".to_owned()))
    );
    assert_eq!(
        VariantOptions::from_typed(Err("x".to_owned())),
        Err(GameError::Serialization("x".to_owned()))
    );
}

#[test]
fn to_typed_reports_serialization_error_on_mismatch() {
    let payload = PlayerView::new(object(vec![("finished", Json::Bool(false))]));
    let err = payload.to_typed(decode_play).unwrap_err();
    assert!(matches!(err, GameError::Serialization(_)));
}

#[test]
fn registry_register_get_and_ids() {
    let mut registry = VariantRegistry::new();
    assert!(registry.get("toy").is_none());

    let prev = registry.register(Arc::new(ToyFactory));
    assert!(prev.is_none());

    let factory = registry.get("toy").expect("registered");
    assert_eq!(factory.id(), "toy");
    assert_eq!(factory.display_name(), "Toy Variant");
    assert_eq!(registry.ids(), vec!["toy"]);

    let prev = registry.register(Arc::new(ToyFactory));
    assert!(prev.is_some());
    assert_eq!(registry.ids(), vec!["toy"]);
}

#[test]
fn registering_one_variant_leaves_others_alone() {
    struct OtherFactory;
    impl VariantFactory for OtherFactory {
        fn id(&self) -> &'static str {
            "other"
        }
        fn display_name(&self) -> &str {
            "Other"
        }
        fn new_game(&self, _: &VariantOptions) -> Result<Box<dyn GameSession>, GameError> {
            Err(GameError::Other("not today".to_owned()))
        }
    }
    let mut registry = VariantRegistry::new();
    registry.register(Arc::new(ToyFactory));
    assert!(registry.register(Arc::new(OtherFactory)).is_none());
    assert_eq!(registry.get("toy").unwrap().display_name(), "Toy Variant");
    assert_eq!(registry.get("other").unwrap().display_name(), "Other");
    assert_eq!(registry.ids().len(), 2);
    let err = registry.new_game("other", &VariantOptions::default()).err();
    assert_eq!(err, Some(GameError::Other("not today".to_owned())));
}

#[test]
fn registry_new_game_unknown_variant() {
    let registry = VariantRegistry::new();
    let err = registry
        .new_game("does-not-exist", &VariantOptions::default())
        .err()
        .expect("unknown");
    assert_eq!(err, GameError::UnknownVariant("does-not-exist".to_owned()));
}

#[test]
fn box_dyn_game_session_is_usable() {
    let mut registry = VariantRegistry::default();
    registry.register(Arc::new(ToyFactory));

    let mut game: Box<dyn GameSession> = match registry.new_game("toy", &VariantOptions::default()) {
        Ok(game) => game,
        Err(e) => panic!("toy game: {}", e.to_string()),
    };

    assert_eq!(game.variant_id(), "toy");
    assert_eq!(game.to_move(), Color::White);
    assert_eq!(game.status(), GameStatus::Ongoing);
    assert!(game.outcome().is_none());

    let _ = game.view_for(Color::White);
    let _ = game.view_for(Color::Black);
    let _ = game.spectator_view();

    let actions = game.legal_actions(Color::White);
    assert_eq!(actions.len(), 1);
    assert!(game.legal_actions(Color::Black).is_empty());

    let out_of_turn = game.apply(Color::Black, &actions[0]).unwrap_err();
    assert_eq!(out_of_turn, GameError::NotYourTurn);

    let effect = game.apply(Color::White, &actions[0]).expect("legal");
    assert!(effect.status.is_finished());
    assert_eq!(effect.events.len(), 1);
    assert_eq!(effect.clone(), effect);
    assert_eq!(game.outcome().map(|o| o.winner), Some(Some(Color::White)));

    let after = game.apply(Color::White, &actions[0]).unwrap_err();
    assert_eq!(after, GameError::Finished);
}

#[test]
fn typed_options_round_trip() {
    let opts = VariantOptions::from_typed(Ok(object(vec![("label", text("rated"))]))).unwrap();
    let label = opts
        .to_typed(|v: &Json| match v.get("label") {
            Some(Json::Str(s)) => Ok(s.clone()),
            _ => Err("no label".to_owned()),
        })
        .unwrap();
    assert_eq!(label, "rated");
    assert!(VariantOptions::default().as_value().is_null());
}

#[test]
fn draws_have_no_winner() {
    let draw = Outcome::draw(EndReason::Stalemate);
    assert!(draw.winner.is_none());
    let status = GameStatus::Finished(Outcome::win(Color::White, EndReason::Checkmate));
    assert!(status.is_finished());
    assert!(!GameStatus::Ongoing.is_finished());
}

#[test]
fn game_errors_render_as_documented() {
    let cases = [
        (GameError::UnknownVariant("x".to_owned()), "unknown variant: x"),
        (GameError::NotYourTurn, "it is not your turn to act"),
        (GameError::IllegalAction, "illegal action"),
        (GameError::Finished, "the game is already finished"),
        (GameError::InvalidActionPayload("p".to_owned()), "invalid action payload: p"),
        (GameError::Serialization("s".to_owned()), "serialization error: s"),
        (GameError::Other("o".to_owned()), "o"),
    ];
    for (error, expected) in cases {
        assert_eq!(error.to_string(), expected);
        assert_eq!(error.clone(), error);
    }
}

fn to_value(v: &Json) -> serde_json::Value {
    serde_json::from_str(&v.to_text()).expect("the text is JSON")
}

#[test]
fn json_text_is_what_serde_json_writes() {
    let value = object(vec![
        ("a", Json::Array(vec![Json::Null, Json::Bool(true), Json::Bool(false), Json::Number("12.5".to_owned())])),
        ("quote \" and \\ and \n", text("tab\t, bell \u{7}, accent \u{e9}, smile \u{1F600}")),
        ("empty", Json::Array(vec![])),
        ("nested", object(vec![])),
    ]);
    let canonical = value.canonicalize();
    assert_eq!(
        canonical.to_text(),
        serde_json::to_string(&to_value(&value)).unwrap()
    );
    assert_eq!(Json::Null.to_text(), "null");
    assert_eq!(
        object(vec![("k", Json::Array(vec![Json::Number("1".to_owned()), Json::Null]))]).to_text(),
        "{\"k\":[1,null]}"
    );
}

#[test]
fn strings_are_escaped_as_serde_json_escapes_them() {
    for n in 0..0x180u32 {
        let s = format!("a{}b", char::from_u32(n).unwrap());
        assert_eq!(text(&s).to_text(), serde_json::to_string(&s).unwrap());
    }
    assert_eq!(
        text("\u{8}\t\n\u{c}\r\u{1f}\"\\/\u{7f}\u{2028}\u{1f600}").to_text(),
        "\"\\b\\t\\n\\f\\r\\u001f\\\"\\\\/\u{7f}\u{2028}\u{1f600}\""
    );
}

#[test]
fn values_that_look_alike_have_different_texts() {
    let values = vec![
        Json::Null,
        text("null"),
        text(""),
        Json::Array(vec![]),
        Json::Object(vec![]),
        Json::Array(vec![text("a"), text("b")]),
        Json::Array(vec![text("a\",\"b")]),
        Json::Array(vec![Json::Array(vec![text("a"), text("b")])]),
        Json::Number("12".to_owned()),
        Json::Array(vec![Json::Number("1".to_owned()), Json::Number("2".to_owned())]),
        object(vec![("a", text("b"))]),
        object(vec![("a\":\"b", Json::Null)]),
    ];
    for (i, a) in values.iter().enumerate() {
        for (j, b) in values.iter().enumerate() {
            assert_eq!(a.to_text() == b.to_text(), i == j);
        }
    }
}

#[test]
fn outcomes_and_statuses_have_their_wire_form() {
    assert_eq!(GameStatus::Ongoing.to_json().to_text(), "\"ongoing\"");
    let won = GameStatus::Finished(Outcome::win(Color::Black, EndReason::Checkmate));
    assert_eq!(
        won.to_json().to_text(),
        "{\"finished\":{\"winner\":\"black\",\"reason\":\"checkmate\"}}"
    );
    let drawn = Outcome::draw(EndReason::Other("bare king".to_owned()));
    assert_eq!(
        drawn.to_json().to_text(),
        "{\"winner\":null,\"reason\":{\"other\":\"bare king\"}}"
    );
    let names: Vec<String> = vec![
        EndReason::Checkmate,
        EndReason::Stalemate,
        EndReason::Resignation,
        EndReason::Timeout,
        EndReason::DrawAgreement,
        EndReason::InsufficientMaterial,
        EndReason::FiftyMoveRule,
        EndReason::Repetition,
    ]
    .iter()
    .map(|r| r.to_json().as_str().unwrap().to_owned())
    .collect();
    assert_eq!(
        names.join(" "),
        "checkmate stalemate resignation timeout draw_agreement insufficient_material \
         fifty_move_rule repetition"
    );
}

#[test]
fn canonical_form_sorts_keys_at_every_depth() {
    let a = object(vec![
        ("b", object(vec![("y", Json::Number("1".to_owned())), ("x", Json::Null)])),
        ("a", Json::Array(vec![object(vec![("2", Json::Null), ("1", Json::Null)])])),
    ]);
    let b = object(vec![
        ("a", Json::Array(vec![object(vec![("1", Json::Null), ("2", Json::Null)])])),
        ("b", object(vec![("x", Json::Null), ("y", Json::Number("1".to_owned()))])),
    ]);
    assert_eq!(
        a.canonicalize().to_text(),
        "{\"a\":[{\"1\":null,\"2\":null}],\"b\":{\"x\":null,\"y\":1}}"
    );
    assert_eq!(a.canonicalize(), b.canonicalize());
    assert_eq!(a.canonicalize().canonicalize(), a.canonicalize());
}

#[test]
fn values_are_equal_whatever_the_order_of_keys() {
    let a = object(vec![
        ("b", Json::Array(vec![object(vec![("x", Json::Null), ("y", Json::Bool(true))])])),
        ("a", text("1")),
    ]);
    let b = object(vec![
        ("a", text("1")),
        ("b", Json::Array(vec![object(vec![("y", Json::Bool(true)), ("x", Json::Null)])])),
    ]);
    assert_eq!(a, b);
    assert_eq!(to_value(&a), to_value(&b));
    assert_eq!(Action::new(a.clone()), Action::new(b.clone()));
    assert_eq!(PlayerView::new(a.clone()), PlayerView::new(b.clone()));
    assert_eq!(Event::new(a.clone()), Event::new(b.clone()));
    assert_eq!(VariantOptions::new(a.clone()), VariantOptions::new(b));
    // The order of the items of an array counts.
    let items = |x: &str, y: &str| Json::Array(vec![text(x), text(y)]);
    assert_ne!(items("x", "y"), items("y", "x"));
    let others = vec![
        object(vec![("a", text("1"))]),
        object(vec![("a", text("1")), ("b", Json::Null)]),
        object(vec![("a", text("2")), ("b", a.get("b").unwrap().clone())]),
        object(vec![("a", Json::Number("1".to_owned())), ("b", a.get("b").unwrap().clone())]),
        object(vec![("c", text("1")), ("b", a.get("b").unwrap().clone())]),
    ];
    for other in &others {
        assert_ne!(a, *other);
        assert_ne!(to_value(&a), to_value(other));
    }
}

#[test]
fn json_lookup_reads_objects_only() {
    let v = object(vec![("k", text("v")), ("n", Json::Null)]);
    assert_eq!(v.get("k").and_then(|x| x.as_str()), Some("v"));
    assert!(v.get("n").unwrap().is_null());
    assert!(v.get("missing").is_none());
    assert!(Json::Array(vec![]).get("k").is_none());
    assert!(Json::Bool(true).as_str().is_none());
}
