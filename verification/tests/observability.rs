use mcs::observability::{
    shown_request_id, LogFormat, ObservabilityConfig, UuidRequestId, REQUEST_ID_HEADER,
};
use mcs::rating::Score;

#[test]
fn default_config_is_pretty_info() {
    let cfg = ObservabilityConfig::default();
    assert_eq!(cfg.format, LogFormat::Pretty);
    assert_eq!(cfg.default_directive, "info");
}

#[test]
fn log_format_default_is_pretty() {
    assert_eq!(LogFormat::default(), LogFormat::Pretty);
}

#[test]
fn config_can_be_set_to_json() {
    let cfg = ObservabilityConfig {
        format: LogFormat::Json,
        default_directive: "debug".to_owned(),
    };
    assert_eq!(cfg.format, LogFormat::Json);
    assert_eq!(cfg.default_directive, "debug");
}

#[test]
fn request_id_header_name_is_correct() {
    assert_eq!(REQUEST_ID_HEADER, "x-request-id");
}

#[test]
fn uuid_request_id_generates_valid_uuid() {
    let mut maker = UuidRequestId;
    let id_str = maker.make_request_id();
    assert_eq!(id_str.len(), 36, "expected UUID length");
    assert!(
        uuid::Uuid::parse_str(&id_str).is_ok(),
        "expected a valid UUID, got: {id_str}"
    );
    assert_ne!(id_str, maker.make_request_id(), "IDs should be unique");
}

#[test]
fn the_environment_overrides_the_default_directive() {
    let cfg = ObservabilityConfig::default();
    assert_eq!(cfg.directive(None), "info");
    assert_eq!(cfg.directive(Some("mcs=debug")), "mcs=debug");
    assert_eq!(cfg.directive(Some("")), "info");
}

#[test]
fn a_missing_request_id_is_shown_as_a_dash() {
    assert_eq!(shown_request_id(Some("abc")), "abc");
    assert_eq!(shown_request_id(None), "-");
}

#[test]
fn scores_count_in_half_points() {
    assert_eq!(Score::Win.half_points(), 2);
    assert_eq!(Score::Draw.half_points(), 1);
    assert_eq!(Score::Loss.half_points(), 0);
}
