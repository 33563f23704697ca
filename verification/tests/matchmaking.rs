use std::collections::HashSet;

use mcs::domain::ids::{SeekId, UserId};
use mcs::domain::seek::{ColorPreference, Seek};
use mcs::domain::time_control::TimeControl;
use mcs::game::matchmaking::{
    plan_submit, resolve_colors, submit_outcome, try_pair, MatchmakingError, Pairing, SubmitOutcome,
    SubmitPlan,
};
use mcs::game::storage::StorageError;
use mcs::time::{Duration, Timestamp};

// A pool of open seeks that carries out the plans.
struct Pool {
    open: Vec<Seek>,
}

impl Pool {
    fn new() -> Self {
        Pool { open: Vec::new() }
    }

    fn submit(&mut self, seek: Seek) -> SubmitOutcome {
        let plan = plan_submit(&seek, &self.open);
        let id = seek.id;
        match &plan {
            SubmitPlan::Pair { matched, .. } => {
                let matched = *matched;
                self.open.retain(|s| s.id != matched);
            }
            SubmitPlan::Queue => self.open.push(seek),
        }
        submit_outcome(id, plan, Ok(())).unwrap()
    }

    fn cancel(&mut self, id: SeekId) {
        self.open.retain(|s| s.id != id);
    }
}

fn blitz() -> TimeControl {
    TimeControl::RealTime {
        initial: Duration::from_secs(180),
        increment: Duration::from_secs(2),
    }
}

fn rapid() -> TimeControl {
    TimeControl::RealTime {
        initial: Duration::from_secs(600),
        increment: Duration::from_secs(5),
    }
}

fn make_seek(creator: UserId, variant: &str, tc: TimeControl, pref: ColorPreference) -> Seek {
    make_seek_rated(creator, variant, tc, pref, true)
}

fn make_seek_rated(
    creator: UserId,
    variant: &str,
    tc: TimeControl,
    pref: ColorPreference,
    rated: bool,
) -> Seek {
    Seek::new(
        creator,
        variant.to_owned(),
        tc,
        pref,
        rated,
        Timestamp::unix_epoch(),
    )
}

fn paired(outcome: SubmitOutcome) -> Pairing {
    match outcome {
        SubmitOutcome::Paired(p) => p,
        SubmitOutcome::Queued(_) => panic!("expected Paired, got Queued"),
    }
}

#[test]
fn opposite_prefs_pair_correctly() {
    let mut mm = Pool::new();
    let user_a = UserId::new();
    let user_b = UserId::new();
    let seek_a = make_seek(user_a, "standard", blitz(), ColorPreference::White);
    let seek_b = make_seek(user_b, "standard", blitz(), ColorPreference::Black);

    let out_a = mm.submit(seek_a);
    assert!(matches!(out_a, SubmitOutcome::Queued(_)));

    let pairing = paired(mm.submit(seek_b));
    let players = [pairing.white, pairing.black];
    assert!(players.contains(&user_a), "user_a must appear in the pairing");
    assert!(players.contains(&user_b), "user_b must appear in the pairing");
    assert_ne!(pairing.white, pairing.black, "white and black must differ");
    assert_eq!(pairing.variant_id, "standard");
    assert_eq!(pairing.time_control, blitz());
    assert!(mm.open.is_empty());
}

#[test]
fn explicit_prefs_honoured() {
    let mut mm = Pool::new();
    let user_white = UserId::new();
    let user_black = UserId::new();
    mm.submit(make_seek(user_white, "standard", blitz(), ColorPreference::White));
    let pairing = paired(mm.submit(make_seek(
        user_black,
        "standard",
        blitz(),
        ColorPreference::Black,
    )));
    assert_eq!(pairing.white, user_white);
    assert_eq!(pairing.black, user_black);
}

#[test]
fn incompatible_time_controls_both_queued() {
    let mut mm = Pool::new();
    let seek_a = make_seek(UserId::new(), "standard", blitz(), ColorPreference::Random);
    let seek_b = make_seek(UserId::new(), "standard", rapid(), ColorPreference::Random);
    let out_a = mm.submit(seek_a.clone());
    let out_b = mm.submit(seek_b.clone());
    assert!(
        matches!(out_a, SubmitOutcome::Queued(id) if id == seek_a.id),
        "seek_a should be queued"
    );
    assert!(
        matches!(out_b, SubmitOutcome::Queued(id) if id == seek_b.id),
        "seek_b should be queued"
    );
    assert_eq!(mm.open.len(), 2);
}

#[test]
fn conflicting_same_color_prefs_not_paired() {
    let mut mm = Pool::new();
    let out_a = mm.submit(make_seek(UserId::new(), "standard", blitz(), ColorPreference::White));
    let out_b = mm.submit(make_seek(UserId::new(), "standard", blitz(), ColorPreference::White));
    assert!(matches!(out_a, SubmitOutcome::Queued(_)));
    assert!(matches!(out_b, SubmitOutcome::Queued(_)));
    assert_eq!(mm.open.len(), 2);
}

#[test]
fn conflicting_black_prefs_not_paired() {
    let mut mm = Pool::new();
    mm.submit(make_seek(UserId::new(), "standard", blitz(), ColorPreference::Black));
    let out_b = mm.submit(make_seek(UserId::new(), "standard", blitz(), ColorPreference::Black));
    assert!(matches!(out_b, SubmitOutcome::Queued(_)));
    assert_eq!(mm.open.len(), 2);
}

#[test]
fn random_random_pair_assigns_distinct_colors() {
    let mut mm = Pool::new();
    let user_a = UserId::new();
    let user_b = UserId::new();
    mm.submit(make_seek(user_a, "standard", blitz(), ColorPreference::Random));
    let pairing = paired(mm.submit(make_seek(user_b, "standard", blitz(), ColorPreference::Random)));
    assert_ne!(pairing.white, pairing.black);
    let players = [pairing.white, pairing.black];
    assert!(players.contains(&user_a));
    assert!(players.contains(&user_b));
}

#[test]
fn the_lower_seek_id_plays_white_when_both_are_flexible() {
    let (low, high) = (SeekId(1), SeekId(2));
    let (a, b) = (UserId(20), UserId(10));
    let random = ColorPreference::Random;
    assert_eq!(resolve_colors(low, a, random, high, b, random), Some((a, b)));
    assert_eq!(resolve_colors(high, b, random, low, a, random), Some((a, b)));
}

#[test]
fn a_flexible_side_takes_the_other_color() {
    let (s, t) = (SeekId(1), SeekId(2));
    let (a, b) = (UserId(1), UserId(2));
    let (white, black, random) = (
        ColorPreference::White,
        ColorPreference::Black,
        ColorPreference::Random,
    );
    assert_eq!(resolve_colors(s, a, white, t, b, random), Some((a, b)));
    assert_eq!(resolve_colors(s, a, black, t, b, random), Some((b, a)));
    assert_eq!(resolve_colors(s, a, random, t, b, white), Some((b, a)));
    assert_eq!(resolve_colors(s, a, random, t, b, black), Some((a, b)));
    assert_eq!(resolve_colors(s, a, black, t, b, white), Some((b, a)));
    assert_eq!(resolve_colors(s, a, white, t, b, white), None);
    assert_eq!(resolve_colors(s, a, black, t, b, black), None);
}

#[test]
fn pairing_does_not_depend_on_who_asks() {
    let a = make_seek(UserId::new(), "standard", blitz(), ColorPreference::Random);
    let b = make_seek(UserId::new(), "standard", blitz(), ColorPreference::Random);
    assert_eq!(try_pair(&a, &b), try_pair(&b, &a));
    assert!(try_pair(&a, &b).is_some());
}

#[test]
fn the_earliest_compatible_seek_is_taken() {
    let other = make_seek(UserId::new(), "960", blitz(), ColorPreference::Random);
    let first = make_seek(UserId::new(), "standard", blitz(), ColorPreference::White);
    let second = make_seek(UserId::new(), "standard", blitz(), ColorPreference::White);
    let incoming = make_seek(UserId::new(), "standard", blitz(), ColorPreference::Black);
    let open = vec![other, first.clone(), second];
    match plan_submit(&incoming, &open) {
        SubmitPlan::Pair { matched, pairing } => {
            assert_eq!(matched, first.id);
            assert_eq!(pairing.white, first.creator);
            assert_eq!(pairing.black, incoming.creator);
        }
        SubmitPlan::Queue => panic!("expected a pairing"),
    }
}

#[test]
fn cancel_removes_seek() {
    let mut mm = Pool::new();
    let seek = make_seek(UserId::new(), "standard", blitz(), ColorPreference::Random);
    let id = seek.id;
    mm.submit(seek);
    assert_eq!(mm.open.len(), 1);
    mm.cancel(id);
    assert!(mm.open.is_empty());
}

#[test]
fn different_variants_not_paired() {
    let mut mm = Pool::new();
    mm.submit(make_seek(UserId::new(), "standard", blitz(), ColorPreference::Random));
    let out_b = mm.submit(make_seek(UserId::new(), "960", blitz(), ColorPreference::Random));
    assert!(matches!(out_b, SubmitOutcome::Queued(_)));
    assert_eq!(mm.open.len(), 2);
}

#[test]
fn same_creator_not_paired() {
    let mut mm = Pool::new();
    let user = UserId::new();
    mm.submit(make_seek(user, "standard", blitz(), ColorPreference::White));
    let out_b = mm.submit(make_seek(user, "standard", blitz(), ColorPreference::Black));
    assert!(matches!(out_b, SubmitOutcome::Queued(_)));
    assert_eq!(mm.open.len(), 2);
}

fn colored_pair(rated_a: bool, rated_b: bool) -> (Pool, SubmitOutcome) {
    let mut mm = Pool::new();
    mm.submit(make_seek_rated(
        UserId::new(),
        "standard",
        blitz(),
        ColorPreference::White,
        rated_a,
    ));
    let out = mm.submit(make_seek_rated(
        UserId::new(),
        "standard",
        blitz(),
        ColorPreference::Black,
        rated_b,
    ));
    (mm, out)
}

#[test]
fn two_rated_seeks_pair_rated() {
    let (_, out) = colored_pair(true, true);
    assert!(paired(out).rated, "two rated seeks must produce a rated game");
}

#[test]
fn two_casual_seeks_pair_casual() {
    let (_, out) = colored_pair(false, false);
    assert!(!paired(out).rated, "two casual seeks must produce a casual game");
}

#[test]
fn rated_and_casual_seeks_do_not_pair() {
    let (mm, out) = colored_pair(true, false);
    assert!(
        matches!(out, SubmitOutcome::Queued(_)),
        "a rated seek must not pair with a casual seek"
    );
    assert_eq!(mm.open.len(), 2);
}

#[test]
fn many_submits_book_nobody_twice() {
    let mut mm = Pool::new();
    let n = 40;
    let mut pairings = Vec::new();
    let mut queued = 0;
    for _ in 0..n {
        let seek = make_seek(UserId::new(), "standard", blitz(), ColorPreference::Random);
        match mm.submit(seek) {
            SubmitOutcome::Paired(p) => pairings.push(p),
            SubmitOutcome::Queued(_) => queued += 1,
        }
    }
    let mut seen: HashSet<UserId> = HashSet::new();
    for p in &pairings {
        assert!(seen.insert(p.white));
        assert!(seen.insert(p.black));
        assert_ne!(p.white, p.black);
    }
    assert_eq!(pairings.len() + queued, n);
    assert_eq!(pairings.len() * 2 + mm.open.len(), n);
}

#[test]
fn a_storage_failure_is_reported() {
    let seek = make_seek(UserId::new(), "standard", blitz(), ColorPreference::Random);
    let plan = plan_submit(&seek, &Vec::new());
    let out = submit_outcome(seek.id, plan, Err(StorageError::Backend("down".to_owned())));
    let err = out.unwrap_err();
    assert_eq!(
        err,
        MatchmakingError::Storage(StorageError::Backend("down".to_owned()))
    );
    assert_eq!(err.to_string(), "storage error: backend error: down");
}
