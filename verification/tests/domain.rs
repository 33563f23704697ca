use mcs::domain::challenge::{Challenge, ChallengeStatus};
use mcs::domain::clock::Clock;
use mcs::domain::error::DomainError;
use mcs::domain::evm_address::EvmAddress;
use mcs::domain::game::{Game, GameLifecycle};
use mcs::domain::ids::{ChallengeId, GameId, SeekId, UserId};
use mcs::domain::seek::{default_rated, ColorPreference, Seek};
use mcs::domain::time_control::{TimeClass, TimeControl};
use mcs::domain::user::User;
use mcs::time::{Duration, Timestamp, MAX_INSTANT_NANOS, MAX_SPAN_NANOS, MIN_INSTANT_NANOS};
use mcs::variant::color::Color;
use mcs::variant::registry::VariantOptions;
use mcs::variant::status::{EndReason, Outcome};

fn epoch() -> Timestamp {
    Timestamp::unix_epoch()
}

fn after_secs(secs: u64) -> Timestamp {
    epoch().checked_add(Duration::from_secs(secs)).unwrap()
}

// Identifiers.

#[test]
fn user_id_new_is_unique() {
    let a = UserId::new();
    let b = UserId::new();
    assert_ne!(a, b);
}

#[test]
fn user_id_display_and_from_str_round_trip() {
    let id = UserId::new();
    let s = id.to_string();
    let back: UserId = s.parse().expect("valid uuid string");
    assert_eq!(id, back);
}

#[test]
fn game_id_from_str_rejects_non_uuid() {
    let err = "not-a-uuid".parse::<GameId>().unwrap_err();
    assert!(matches!(err, DomainError::InvalidId(_)));
    assert_eq!(err.to_string(), "invalid id: not-a-uuid");
}

#[test]
fn as_uuid_returns_inner_value() {
    let uuid = uuid::Uuid::new_v4();
    let id = UserId(uuid.as_u128());
    assert_eq!(id.as_uuid(), uuid.as_u128());
    assert_eq!(id.to_string(), uuid.to_string());
}

#[test]
fn ids_render_hyphenated_in_lower_case() {
    let id = GameId(0x936da01f_9abd_4d9d_80c7_02af85c822a8);
    assert_eq!(id.to_string(), "936da01f-9abd-4d9d-80c7-02af85c822a8");
    assert_eq!(SeekId(0).to_string(), "00000000-0000-0000-0000-000000000000");
}

#[test]
fn ids_parse_every_text_of_a_uuid() {
    let id = ChallengeId(0x936da01f_9abd_4d9d_80c7_02af85c822a8);
    for s in [
        "936da01f9abd4d9d80c702af85c822a8",
        "936da01f-9abd-4d9d-80c7-02af85c822a8",
        "936DA01F-9ABD-4D9D-80C7-02AF85C822A8",
        "{936da01f-9abd-4d9d-80c7-02af85c822a8}",
        "urn:uuid:936da01f-9abd-4d9d-80c7-02af85c822a8",
        "URN:UUID:936da01f-9abd-4d9d-80c7-02af85c822a8",
    ] {
        assert_eq!(s.parse::<ChallengeId>(), Ok(id), "{s}");
    }
    for s in [
        "",
        "936da01f-9abd-4d9d-80c7-02af85c822a",
        "936da01f-9abd-4d9d-80c7-02af85c822a88",
        "936da01f_9abd_4d9d_80c7_02af85c822a8",
        "{936da01f9abd4d9d80c702af85c822a8}",
        "g36da01f9abd4d9d80c702af85c822a8",
    ] {
        assert_eq!(
            s.parse::<ChallengeId>(),
            Err(DomainError::InvalidId(s.to_owned()))
        );
    }
}

#[test]
fn fresh_ids_are_random_uuids() {
    for _ in 0..50 {
        let bits = SeekId::default().as_uuid();
        assert_eq!((bits >> 76) & 15, 4);
        assert_eq!((bits >> 62) & 3, 2);
    }
}

// Addresses.

const VALID: &str = "0xAbCdEf1234567890AbCdEf1234567890AbCdEf12";
const VALID_LOWER: &str = "0xabcdef1234567890abcdef1234567890abcdef12";

#[test]
fn valid_address_is_normalised_to_lowercase() {
    let addr: EvmAddress = VALID.parse().unwrap();
    assert_eq!(addr.to_string(), VALID_LOWER);
}

#[test]
fn lowercase_input_accepted() {
    let addr: EvmAddress = VALID_LOWER.parse().unwrap();
    assert_eq!(addr.as_str(), VALID_LOWER);
}

#[test]
fn try_from_str_works() {
    let addr = EvmAddress::try_from(VALID).unwrap();
    assert_eq!(addr.to_string(), VALID_LOWER);
}

#[test]
fn missing_0x_prefix_is_rejected() {
    let err = "abcdef1234567890abcdef1234567890abcdef12"
        .parse::<EvmAddress>()
        .unwrap_err();
    assert!(matches!(err, DomainError::InvalidAddress(_)));
}

#[test]
fn wrong_length_is_rejected() {
    let err = "0xabcdef1234567890abcdef1234567890abcde"
        .parse::<EvmAddress>()
        .unwrap_err();
    assert!(matches!(err, DomainError::InvalidAddress(_)));

    let err = "0xabcdef1234567890abcdef1234567890abcdef123"
        .parse::<EvmAddress>()
        .unwrap_err();
    assert!(matches!(err, DomainError::InvalidAddress(_)));
}

#[test]
fn non_hex_chars_are_rejected() {
    let err = "0xGGGGGG1234567890abcdef1234567890abcdef12"
        .parse::<EvmAddress>()
        .unwrap_err();
    assert!(matches!(err, DomainError::InvalidAddress(_)));
}

#[test]
fn empty_string_is_rejected() {
    let err = "".parse::<EvmAddress>().unwrap_err();
    assert!(matches!(err, DomainError::InvalidAddress(_)));
}

#[test]
fn upper_case_prefix_is_accepted_and_reparsing_changes_nothing() {
    let addr: EvmAddress = "0XABCDEF1234567890ABCDEF1234567890ABCDEF12".parse().unwrap();
    assert_eq!(addr.as_str(), VALID_LOWER);
    assert_eq!(addr.as_str().parse::<EvmAddress>(), Ok(addr.clone()));
}

#[test]
fn address_errors_hold_the_input() {
    let err = EvmAddress::parse("0x\u{e9}").unwrap_err();
    assert_eq!(err, DomainError::InvalidAddress("0x\u{e9}".to_owned()));
    assert_eq!(err.to_string(), "invalid Ethereum address: 0x\u{e9}");
    // Forty bytes after the prefix, but not forty digits.
    let wide = format!("0x{}", "\u{e9}".repeat(20));
    assert!(EvmAddress::parse(&wide).is_err());
}

// Users.

#[test]
fn new_assigns_unique_ids() {
    let addr: EvmAddress = VALID_LOWER.parse().unwrap();
    let now = epoch();
    let a = User::new(addr.clone(), None, now);
    let b = User::new(addr, None, now);
    assert_ne!(a.id, b.id);
    assert_eq!(a.clone(), a);
}

// Clocks.

#[test]
fn new_sets_equal_times_and_no_turn() {
    let initial = Duration::from_secs(300);
    let clock = Clock::new(initial);
    assert_eq!(clock.white_remaining(), initial);
    assert_eq!(clock.black_remaining(), initial);
    assert!(clock.turn_started_at().is_none());
}

#[test]
fn with_times_constructor() {
    let w = Duration::from_secs(120);
    let b = Duration::from_secs(180);
    let ts = epoch();
    let clock = Clock::with_times(w, b, Some(ts));
    assert_eq!(clock.white_remaining(), w);
    assert_eq!(clock.black_remaining(), b);
    assert_eq!(clock.turn_started_at(), Some(ts));
}

// Games.

fn sample_game() -> Game {
    Game::new(
        "standard".to_owned(),
        VariantOptions::default(),
        UserId::new(),
        UserId::new(),
        TimeControl::RealTime {
            initial: Duration::from_secs(300),
            increment: Duration::from_secs(0),
        },
        epoch(),
    )
}

#[test]
fn new_starts_in_created_state() {
    let game = sample_game();
    assert_eq!(game.lifecycle, GameLifecycle::Created);
    assert!(game.outcome.is_none());
    assert_eq!(game.created_at, game.updated_at);
}

#[test]
fn new_starts_with_empty_snapshot() {
    let game = sample_game();
    assert_eq!(game.ply, 0);
    assert!(game.clock_white_ms.is_none());
    assert!(game.clock_black_ms.is_none());
    assert!(game.side_to_move.is_none());
}

#[test]
fn update_snapshot_sets_fields_and_timestamp() {
    let mut game = sample_game();
    let later = after_secs(42);
    game.update_snapshot(7, Some(290_000), Some(300_000), Some(Color::Black), later);

    assert_eq!(game.ply, 7);
    assert_eq!(game.clock_white_ms, Some(290_000));
    assert_eq!(game.clock_black_ms, Some(300_000));
    assert_eq!(game.side_to_move, Some(Color::Black));
    assert_eq!(game.updated_at, later);
    assert_eq!(game.lifecycle, GameLifecycle::Created);
    assert_eq!(game.created_at, epoch());
}

#[test]
fn finish_sets_lifecycle_and_outcome() {
    let mut game = sample_game();
    let outcome = Outcome::win(Color::White, EndReason::Checkmate);
    let later = after_secs(3600);
    game.finish(outcome.clone(), later);

    assert_eq!(game.lifecycle, GameLifecycle::Finished);
    assert_eq!(game.outcome, Some(outcome));
    assert_eq!(game.updated_at, later);
    assert_eq!(game.created_at, epoch());
}

#[test]
fn finish_draw() {
    let mut game = sample_game();
    let outcome = Outcome::draw(EndReason::Stalemate);
    let later = after_secs(1800);
    game.finish(outcome.clone(), later);
    assert!(game.outcome.as_ref().unwrap().winner.is_none());
    // Finishing again overwrites the outcome.
    game.finish(Outcome::win(Color::Black, EndReason::Resignation), later);
    assert_eq!(game.outcome.as_ref().unwrap().winner, Some(Color::Black));
    assert_eq!(game.clone(), game);
}

#[test]
fn a_finished_game_has_no_side_to_move() {
    let mut game = sample_game();
    game.update_snapshot(7, Some(290_000), Some(300_000), Some(Color::Black), after_secs(42));
    game.finish(Outcome::draw(EndReason::Stalemate), after_secs(43));
    assert_eq!(game.side_to_move, None);
    assert_eq!(game.ply, 7);
    assert_eq!(game.clock_white_ms, Some(290_000));
}

#[test]
fn game_new_generates_unique_ids() {
    assert_ne!(sample_game().id, sample_game().id);
}

// Seeks.

#[test]
fn seek_new_generates_unique_ids() {
    let creator = UserId::new();
    let a = Seek::new(
        creator,
        "standard".to_owned(),
        TimeControl::Unlimited,
        ColorPreference::White,
        true,
        epoch(),
    );
    let b = Seek::new(
        creator,
        "standard".to_owned(),
        TimeControl::Unlimited,
        ColorPreference::White,
        true,
        epoch(),
    );
    assert_ne!(a.id, b.id);
    assert_eq!(a.clone(), a);
    assert!(default_rated());
}

// Challenges.

fn sample_challenge() -> Challenge {
    Challenge::new(
        UserId::new(),
        UserId::new(),
        "standard".to_owned(),
        TimeControl::RealTime {
            initial: Duration::from_secs(300),
            increment: Duration::from_secs(2),
        },
        true,
        ColorPreference::White,
        epoch(),
    )
}

#[test]
fn new_starts_pending_with_no_game() {
    let c = sample_challenge();
    assert_eq!(c.status, ChallengeStatus::Pending);
    assert!(c.is_pending());
    assert!(c.game_id.is_none());
}

#[test]
fn challenge_new_generates_unique_ids() {
    assert_ne!(sample_challenge().id, sample_challenge().id);
}

#[test]
fn accept_sets_status_and_game_id() {
    let mut c = sample_challenge();
    let game = GameId::new();
    assert!(c.accept(game));
    assert_eq!(c.status, ChallengeStatus::Accepted);
    assert_eq!(c.game_id, Some(game));
}

#[test]
fn decline_sets_status() {
    let mut c = sample_challenge();
    assert!(c.decline());
    assert_eq!(c.status, ChallengeStatus::Declined);
    assert!(c.game_id.is_none());
}

#[test]
fn cancel_sets_status() {
    let mut c = sample_challenge();
    assert!(c.cancel());
    assert_eq!(c.status, ChallengeStatus::Canceled);
    assert!(c.game_id.is_none());
}

#[test]
fn transitions_only_fire_from_pending() {
    let mut c = sample_challenge();
    assert!(c.accept(GameId::new()));
    let snapshot = c.clone();
    assert!(!c.decline());
    assert!(!c.cancel());
    assert!(!c.accept(GameId::new()));
    assert_eq!(c, snapshot, "a terminal challenge is left untouched");

    let mut d = sample_challenge();
    assert!(d.decline());
    assert!(!d.accept(GameId::new()));
    assert!(d.game_id.is_none());
}

// Time controls.

#[test]
fn real_time_helpers() {
    let tc = TimeControl::RealTime {
        initial: Duration::from_secs(300),
        increment: Duration::from_secs(5),
    };
    assert!(tc.is_real_time());
    assert!(!tc.is_correspondence());
    assert!(!tc.is_unlimited());
}

#[test]
fn correspondence_helpers() {
    let tc = TimeControl::Correspondence { days_per_move: 3 };
    assert!(!tc.is_real_time());
    assert!(tc.is_correspondence());
    assert!(!tc.is_unlimited());
}

#[test]
fn unlimited_helpers() {
    assert!(TimeControl::Unlimited.is_unlimited());
    assert!(!TimeControl::Unlimited.is_real_time());
}

fn real_time(initial: u64, increment: u64) -> TimeControl {
    TimeControl::RealTime {
        initial: Duration::from_secs(initial),
        increment: Duration::from_secs(increment),
    }
}

#[test]
fn time_class_bullet_boundaries() {
    assert_eq!(real_time(0, 0).time_class(), TimeClass::Bullet);
    assert_eq!(real_time(178, 0).time_class(), TimeClass::Bullet);
    assert_eq!(real_time(138, 1).time_class(), TimeClass::Bullet);
}

#[test]
fn time_class_blitz_boundaries() {
    assert_eq!(real_time(179, 0).time_class(), TimeClass::Blitz);
    assert_eq!(real_time(180, 0).time_class(), TimeClass::Blitz);
    assert_eq!(real_time(300, 0).time_class(), TimeClass::Blitz);
    assert_eq!(real_time(478, 0).time_class(), TimeClass::Blitz);
    assert_eq!(real_time(180, 2).time_class(), TimeClass::Blitz);
}

#[test]
fn time_class_rapid_boundaries() {
    assert_eq!(real_time(479, 0).time_class(), TimeClass::Rapid);
    assert_eq!(real_time(600, 0).time_class(), TimeClass::Rapid);
    assert_eq!(real_time(1498, 0).time_class(), TimeClass::Rapid);
    assert_eq!(real_time(600, 5).time_class(), TimeClass::Rapid);
}

#[test]
fn time_class_classical_boundaries() {
    assert_eq!(real_time(1499, 0).time_class(), TimeClass::Classical);
    assert_eq!(real_time(1800, 0).time_class(), TimeClass::Classical);
    assert_eq!(real_time(1500, 10).time_class(), TimeClass::Classical);
}

#[test]
fn time_class_of_extreme_controls_is_classical() {
    assert_eq!(real_time(u64::MAX, u64::MAX).time_class(), TimeClass::Classical);
    assert_eq!(real_time(0, u64::MAX).time_class(), TimeClass::Classical);
}

#[test]
fn time_class_correspondence_and_unlimited() {
    assert_eq!(
        TimeControl::Correspondence { days_per_move: 1 }.time_class(),
        TimeClass::Correspondence
    );
    assert_eq!(
        TimeControl::Correspondence { days_per_move: 14 }.time_class(),
        TimeClass::Correspondence
    );
    assert_eq!(
        TimeControl::Unlimited.time_class(),
        TimeClass::Correspondence
    );
}

#[test]
fn time_class_as_str_and_from_str_round_trip() {
    for tc in [
        TimeClass::Bullet,
        TimeClass::Blitz,
        TimeClass::Rapid,
        TimeClass::Classical,
        TimeClass::Correspondence,
    ] {
        assert_eq!(tc.as_str().parse::<TimeClass>().unwrap(), tc);
        assert_eq!(tc.to_string(), tc.as_str());
    }
}

#[test]
fn time_class_from_str_rejects_unknown() {
    assert!("hyperbullet".parse::<TimeClass>().is_err());
    assert!("Blitz".parse::<TimeClass>().is_err());
}

#[test]
fn unknown_time_class_is_quoted_in_the_error() {
    let err = "a\"b\n".parse::<TimeClass>().unwrap_err();
    assert_eq!(
        err.to_string(),
        format!("validation error: unknown time class: {:?}", "a\"b\n")
    );
    assert_eq!(
        err,
        DomainError::Validation("unknown time class: \"a\\\"b\\n\"".to_owned())
    );
}

// Spans and instants.

#[test]
fn spans_saturate_at_both_ends() {
    let longest = Duration::from_nanos(MAX_SPAN_NANOS).unwrap();
    assert!(Duration::from_nanos(MAX_SPAN_NANOS + 1).is_none());
    assert_eq!(longest.as_secs(), u64::MAX);
    assert_eq!(longest.saturating_add(Duration::from_millis(1)), longest);
    assert_eq!(
        Duration::from_secs(1).saturating_sub(Duration::from_secs(2)),
        Duration::zero()
    );
    assert_eq!(
        Duration::from_millis(1500).saturating_sub(Duration::from_secs(1)),
        Duration::from_millis(500)
    );
    assert_eq!(Duration::from_millis(1999).as_secs(), 1);
    assert_eq!(Duration::from_secs(2).as_millis(), 2000);
    assert!(Duration::zero().is_zero());
}

#[test]
fn instants_span_the_calendar_of_the_time_crate() {
    for nanos in [MIN_INSTANT_NANOS, -1, 0, MAX_INSTANT_NANOS] {
        assert!(time::OffsetDateTime::from_unix_timestamp_nanos(nanos).is_ok());
        assert_eq!(Timestamp::from_unix_nanos(nanos).unwrap().unix_nanos(), nanos);
    }
    for nanos in [MIN_INSTANT_NANOS - 1, MAX_INSTANT_NANOS + 1] {
        assert!(time::OffsetDateTime::from_unix_timestamp_nanos(nanos).is_err());
        assert!(Timestamp::from_unix_nanos(nanos).is_none());
    }
    assert!(epoch().checked_add(Duration::from_secs(u64::MAX)).is_none());
    assert_eq!(after_secs(5).elapsed_since(epoch()), Duration::from_secs(5));
    assert_eq!(epoch().elapsed_since(after_secs(5)), Duration::zero());
}
