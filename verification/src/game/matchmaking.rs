//! The seek-pool matchmaker.
//!
//! This is the only place that decides whether two open seeks are compatible
//! and who plays which colour. Two seeks are compatible when they come from
//! different players, for the same variant, time control and rated flag, and do
//! not insist on the same colour.
//!
//! A submitted seek is paired with the first compatible seek of the pool, which
//! leaves the pool; when there is none, the submitted seek joins the pool.

use vstd::prelude::*;

use crate::domain::ids;
use crate::domain::ids::{SeekId, UserId};
use crate::domain::seek::{ColorPreference, Seek};
use crate::domain::time_control::TimeControl;
use crate::game::storage::StorageError;
use crate::text;

verus! {

/// Two matched players: everything needed to create their game.
#[derive(Debug, PartialEq, Eq)]
pub struct Pairing {
    /// The user who plays white.
    pub white: UserId,
    /// The user who plays black.
    pub black: UserId,
    /// The variant both agreed on.
    pub variant_id: String,
    /// The time control both agreed on.
    pub time_control: TimeControl,
    /// Whether the game is rated: the value both seeks hold.
    pub rated: bool,
}

impl Clone for Pairing {
    fn clone(&self) -> (r: Self)
        ensures
            r == *self,
    {
        Pairing {
            white: self.white,
            black: self.black,
            variant_id: self.variant_id.clone(),
            time_control: self.time_control,
            rated: self.rated,
        }
    }
}

/// What became of a submitted seek.
#[derive(Debug, PartialEq, Eq)]
pub enum SubmitOutcome {
    /// The seek was matched; neither seek is in the pool.
    Paired(Pairing),
    /// Nothing matched; the seek waits in the pool under this identifier.
    Queued(SeekId),
}

/// A failed matchmaking operation.
#[derive(Debug, PartialEq, Eq)]
pub enum MatchmakingError {
    /// The seek repository failed.
    Storage(StorageError),
}

impl MatchmakingError {
    /// The text shown for the error.
    pub open spec fn message(self) -> Seq<char> {
        match self {
            MatchmakingError::Storage(e) => "storage error: "@ + e.message(),
        }
    }

    /// Renders the error.
    pub fn to_string(&self) -> (r: String)
        ensures
            r@ == self.message(),
    {
        match self {
            MatchmakingError::Storage(e) => text::join2("storage error: ", e.to_string().as_str()),
        }
    }
}

/// What is to be done with the pool for a submitted seek.
#[derive(Debug, PartialEq, Eq)]
pub enum SubmitPlan {
    /// Take the seek `matched` out of the pool and report the pairing.
    Pair { matched: SeekId, pairing: Pairing },
    /// Put the submitted seek into the pool.
    Queue,
}

/// Who plays white and who plays black, given both preferences: an explicit
/// preference is honoured, two equal explicit ones conflict, and of two flexible
/// players the one whose seek identifier comes first in string order plays
/// white.
pub open spec fn colors_of(
    a_seek: SeekId,
    a_id: UserId,
    a_pref: ColorPreference,
    b_seek: SeekId,
    b_id: UserId,
    b_pref: ColorPreference,
) -> Option<(UserId, UserId)> {
    match (a_pref, b_pref) {
        (ColorPreference::White, ColorPreference::White) => None,
        (ColorPreference::Black, ColorPreference::Black) => None,
        (ColorPreference::White, _) => Some((a_id, b_id)),
        (ColorPreference::Black, _) => Some((b_id, a_id)),
        (ColorPreference::Random, ColorPreference::White) => Some((b_id, a_id)),
        (ColorPreference::Random, ColorPreference::Black) => Some((a_id, b_id)),
        (ColorPreference::Random, ColorPreference::Random) => if text::lex_le(
            ids::hyphenated(a_seek.0),
            ids::hyphenated(b_seek.0),
        ) {
            Some((a_id, b_id))
        } else {
            Some((b_id, a_id))
        },
    }
}

/// Whether two seeks agree on everything but the colours.
pub open spec fn same_terms(a: Seek, b: Seek) -> bool {
    &&& a.creator != b.creator
    &&& a.variant_id@ == b.variant_id@
    &&& a.time_control == b.time_control
    &&& a.rated == b.rated
}

/// The pairing of two seeks, if they are compatible.
pub open spec fn pairing_of(incoming: Seek, existing: Seek) -> Option<Pairing> {
    let colors = colors_of(
        incoming.id,
        incoming.creator,
        incoming.color_preference,
        existing.id,
        existing.creator,
        existing.color_preference,
    );
    if !same_terms(incoming, existing) {
        None
    } else {
        match colors {
            Some((white, black)) => Some(
                Pairing {
                    white,
                    black,
                    variant_id: incoming.variant_id,
                    time_control: incoming.time_control,
                    rated: incoming.rated,
                },
            ),
            None => None,
        }
    }
}

/// The plan for a seek submitted to the pool `open`: the first compatible seek
/// is taken.
pub open spec fn plan_of(seek: Seek, open: Seq<Seek>) -> SubmitPlan
    decreases open.len(),
{
    if open.len() == 0 {
        SubmitPlan::Queue
    } else {
        match pairing_of(seek, open[0]) {
            Some(pairing) => SubmitPlan::Pair { matched: open[0].id, pairing },
            None => plan_of(seek, open.drop_first()),
        }
    }
}

/// Resolves which player gets white and which gets black, as a pair of white and
/// black, or `None` when both insist on the same colour.
pub fn resolve_colors(
    a_seek: SeekId,
    a_id: UserId,
    a_pref: ColorPreference,
    b_seek: SeekId,
    b_id: UserId,
    b_pref: ColorPreference,
) -> (r: Option<(UserId, UserId)>)
    ensures
        r == colors_of(a_seek, a_id, a_pref, b_seek, b_id, b_pref),
{
    match (a_pref, b_pref) {
        (ColorPreference::White, ColorPreference::White) => None,
        (ColorPreference::Black, ColorPreference::Black) => None,
        (ColorPreference::White, _) => Some((a_id, b_id)),
        (ColorPreference::Black, _) => Some((b_id, a_id)),
        (ColorPreference::Random, ColorPreference::White) => Some((b_id, a_id)),
        (ColorPreference::Random, ColorPreference::Black) => Some((a_id, b_id)),
        (ColorPreference::Random, ColorPreference::Random) => {
            let a_text = a_seek.to_string();
            let b_text = b_seek.to_string();
            if text::str_le(a_text.as_str(), b_text.as_str()) {
                Some((a_id, b_id))
            } else {
                Some((b_id, a_id))
            }
        },
    }
}

/// Pairs `incoming` with `existing`, or returns `None` when they are not
/// compatible.
pub fn try_pair(incoming: &Seek, existing: &Seek) -> (r: Option<Pairing>)
    ensures
        r == pairing_of(*incoming, *existing),
{
    if incoming.creator == existing.creator {
        return None;
    }
    if !text::str_eq(incoming.variant_id.as_str(), existing.variant_id.as_str()) {
        return None;
    }
    if incoming.time_control != existing.time_control {
        return None;
    }
    if incoming.rated != existing.rated {
        return None;
    }
    match resolve_colors(
        incoming.id,
        incoming.creator,
        incoming.color_preference,
        existing.id,
        existing.creator,
        existing.color_preference,
    ) {
        Some((white, black)) => Some(
            Pairing {
                white,
                black,
                variant_id: incoming.variant_id.clone(),
                time_control: incoming.time_control,
                rated: incoming.rated,
            },
        ),
        None => None,
    }
}

/// Decides what to do with `seek`, given the open pool.
pub fn plan_submit(seek: &Seek, open: &Vec<Seek>) -> (r: SubmitPlan)
    ensures
        r == plan_of(*seek, open@),
{
    let mut i: usize = 0;
    assert(open@.skip(0) == open@);
    while i < open.len()
        invariant
            i <= open@.len(),
            plan_of(*seek, open@) == plan_of(*seek, open@.skip(i as int)),
        decreases open@.len() - i,
    {
        assert(open@.skip(i as int)[0] == open@[i as int]);
        assert(open@.skip(i as int).drop_first() == open@.skip(i + 1));
        if let Some(pairing) = try_pair(seek, &open[i]) {
            return SubmitPlan::Pair { matched: open[i].id, pairing };
        }
        i = i + 1;
    }
    SubmitPlan::Queue
}

/// The outcome of a submission, once the repository has answered the one
/// operation that the plan asks for.
pub fn submit_outcome(id: SeekId, plan: SubmitPlan, stored: Result<(), StorageError>) -> (r: Result<
    SubmitOutcome,
    MatchmakingError,
>)
    ensures
        r == match stored {
            Err(e) => Err::<SubmitOutcome, MatchmakingError>(MatchmakingError::Storage(e)),
            Ok(_) => Ok::<SubmitOutcome, MatchmakingError>(
                match plan {
                    SubmitPlan::Pair { pairing, .. } => SubmitOutcome::Paired(pairing),
                    SubmitPlan::Queue => SubmitOutcome::Queued(id),
                },
            ),
        },
{
    match stored {
        Err(e) => Err(MatchmakingError::Storage(e)),
        Ok(_) => match plan {
            SubmitPlan::Pair { pairing, .. } => Ok(SubmitOutcome::Paired(pairing)),
            SubmitPlan::Queue => Ok(SubmitOutcome::Queued(id)),
        },
    }
}

/// A pairing has two different players, the creators of the two seeks, on terms
/// that both seeks hold, and gives each player with an explicit preference that
/// colour.
pub proof fn a_pairing_keeps_both_seeks_terms(incoming: Seek, existing: Seek)
    requires
        pairing_of(incoming, existing) is Some,
    ensures
        ({
            let p = pairing_of(incoming, existing)->0;
            &&& p.white != p.black
            &&& (p.white == incoming.creator && p.black == existing.creator) || (p.white
                == existing.creator && p.black == incoming.creator)
            &&& p.variant_id@ == incoming.variant_id@ && p.variant_id@ == existing.variant_id@
            &&& p.time_control == incoming.time_control && p.time_control == existing.time_control
            &&& p.rated == incoming.rated && p.rated == existing.rated
            &&& incoming.color_preference is White ==> p.white == incoming.creator
            &&& incoming.color_preference is Black ==> p.black == incoming.creator
            &&& existing.color_preference is White ==> p.white == existing.creator
            &&& existing.color_preference is Black ==> p.black == existing.creator
        }),
{
}

/// Which of two seeks was posted first does not matter: they are compatible in
/// both orders or in neither, and with distinct identifiers both orders give the
/// same colours.
pub proof fn pairing_is_symmetric(a: Seek, b: Seek)
    requires
        a.id != b.id,
    ensures
        pairing_of(a, b) is Some <==> pairing_of(b, a) is Some,
        pairing_of(a, b) is Some ==> {
            let p = pairing_of(a, b)->0;
            let q = pairing_of(b, a)->0;
            p.white == q.white && p.black == q.black && p.time_control == q.time_control && p.rated
                == q.rated && p.variant_id@ == q.variant_id@
        },
{
    let x = ids::hyphenated(a.id.0);
    let y = ids::hyphenated(b.id.0);
    text::lex_le_total(x, y);
    if text::lex_le(x, y) && text::lex_le(y, x) {
        text::lex_le_antisymmetric(x, y);
        ids::hyphenated_injective(a.id.0, b.id.0);
    }
}

/// A submitted seek is queued exactly when no seek of the pool is compatible;
/// otherwise the first compatible one is taken.
pub proof fn the_first_compatible_seek_is_taken(seek: Seek, open: Seq<Seek>)
    ensures
        match plan_of(seek, open) {
            SubmitPlan::Pair { matched, pairing } => exists|i: int|
                0 <= i < open.len() && #[trigger] pairing_of(seek, open[i]) == Some(pairing)
                    && matched == open[i].id && (forall|j: int|
                    0 <= j < i ==> #[trigger] pairing_of(seek, open[j]) is None),
            SubmitPlan::Queue => forall|i: int|
                0 <= i < open.len() ==> #[trigger] pairing_of(seek, open[i]) is None,
        },
    decreases open.len(),
{
    if open.len() > 0 {
        let rest = open.drop_first();
        match pairing_of(seek, open[0]) {
            Some(p) => {
                assert(pairing_of(seek, open[0]) == Some(p));
            },
            None => {
                the_first_compatible_seek_is_taken(seek, rest);
                match plan_of(seek, open) {
                    SubmitPlan::Pair { matched, pairing } => {
                        let i = choose|i: int|
                            0 <= i < rest.len() && #[trigger] pairing_of(seek, rest[i]) == Some(
                                pairing,
                            ) && matched == rest[i].id && (forall|j: int|
                                0 <= j < i ==> #[trigger] pairing_of(seek, rest[j]) is None);
                        assert(pairing_of(seek, open[i + 1]) == Some(pairing));
                        assert forall|j: int| 0 <= j < i + 1 implies #[trigger] pairing_of(
                            seek,
                            open[j],
                        ) is None by {
                            if j > 0 {
                                assert(open[j] == rest[j - 1]);
                                assert(pairing_of(seek, rest[j - 1]) is None);
                            }
                        }
                    },
                    SubmitPlan::Queue => {
                        assert forall|j: int| 0 <= j < open.len() implies #[trigger] pairing_of(
                            seek,
                            open[j],
                        ) is None by {
                            if j > 0 {
                                assert(open[j] == rest[j - 1]);
                                assert(pairing_of(seek, rest[j - 1]) is None);
                            }
                        }
                    },
                }
            },
        }
    }
}

/// The pool without the seek `id`.
pub open spec fn without(pool: Seq<Seek>, id: SeekId) -> Seq<Seek>
    decreases pool.len(),
{
    if pool.len() == 0 {
        pool
    } else if pool.last().id == id {
        without(pool.drop_last(), id)
    } else {
        without(pool.drop_last(), id).push(pool.last())
    }
}

/// The pool and the pairings after the seeks were submitted one after the other
/// to an empty pool.
pub open spec fn play_out(seeks: Seq<Seek>) -> (Seq<Seek>, Seq<Pairing>)
    decreases seeks.len(),
{
    if seeks.len() == 0 {
        (seq![], seq![])
    } else {
        let (pool, pairings) = play_out(seeks.drop_last());
        match plan_of(seeks.last(), pool) {
            SubmitPlan::Pair { matched, pairing } => (
                without(pool, matched),
                pairings.push(pairing),
            ),
            SubmitPlan::Queue => (pool.push(seeks.last()), pairings),
        }
    }
}

/// Whether `user` plays in the pairing.
pub open spec fn books(pairing: Pairing, user: UserId) -> bool {
    pairing.white == user || pairing.black == user
}

/// Whether every seek has an identifier and a creator of its own.
pub open spec fn all_distinct(seeks: Seq<Seek>) -> bool {
    forall|i: int, j: int|
        0 <= i < j < seeks.len() ==> #[trigger] seeks[i].id != #[trigger] seeks[j].id
            && seeks[i].creator != seeks[j].creator
}

proof fn differ_at(seeks: Seq<Seek>, i: int, j: int)
    requires
        all_distinct(seeks),
        0 <= i < j < seeks.len(),
    ensures
        seeks[i].id != seeks[j].id,
        seeks[i].creator != seeks[j].creator,
{
    assert(seeks[i].id != seeks[j].id);
}

proof fn all_but_the_last_differ(seeks: Seq<Seek>)
    requires
        all_distinct(seeks),
        seeks.len() > 0,
    ensures
        all_distinct(seeks.drop_last()),
{
    let init = seeks.drop_last();
    assert forall|i: int, j: int| 0 <= i < j < init.len() implies #[trigger] init[i].id
        != #[trigger] init[j].id && init[i].creator != init[j].creator by {
        differ_at(seeks, i, j);
    }
}

// What is left of the pool comes from it.
proof fn the_rest_comes_from_the_pool(pool: Seq<Seek>, id: SeekId, k: int)
    requires
        0 <= k < without(pool, id).len(),
    ensures
        exists|m: int| 0 <= m < pool.len() && #[trigger] pool[m] == without(pool, id)[k],
    decreases pool.len(),
{
    let init = pool.drop_last();
    let w = without(init, id);
    if k < w.len() {
        the_rest_comes_from_the_pool(init, id, k);
        let m = choose|m: int| 0 <= m < init.len() && #[trigger] init[m] == w[k];
        assert(pool[m] == without(pool, id)[k]);
    } else {
        assert(pool[pool.len() - 1] == without(pool, id)[k]);
    }
}

proof fn the_rest_stays_distinct(pool: Seq<Seek>, id: SeekId)
    requires
        all_distinct(pool),
    ensures
        all_distinct(without(pool, id)),
    decreases pool.len(),
{
    if pool.len() > 0 {
        let init = pool.drop_last();
        let w = without(init, id);
        let p = without(pool, id);
        let n = pool.len() - 1;
        all_but_the_last_differ(pool);
        the_rest_stays_distinct(init, id);
        assert forall|i: int, j: int| 0 <= i < j < p.len() implies #[trigger] p[i].id
            != #[trigger] p[j].id && p[i].creator != p[j].creator by {
            if j < w.len() {
                assert(p[i] == w[i] && p[j] == w[j]);
                differ_at(w, i, j);
            } else {
                assert(p[i] == w[i] && p[j] == pool[n]);
                the_rest_comes_from_the_pool(init, id, i);
                let m = choose|m: int| 0 <= m < init.len() && #[trigger] init[m] == w[i];
                assert(pool[m] == w[i]);
                differ_at(pool, m, n);
            }
        }
    }
}

proof fn without_keeps_the_rest(pool: Seq<Seek>, id: SeekId)
    ensures
        forall|s: Seek|
            #![trigger without(pool, id).contains(s)]
            #![trigger pool.contains(s)]
            without(pool, id).contains(s) <==> pool.contains(s) && s.id != id,
        all_distinct(pool) ==> all_distinct(without(pool, id)),
        without(pool, id).len() <= pool.len(),
        (forall|i: int| 0 <= i < pool.len() ==> #[trigger] pool[i].id != id) ==> without(pool, id)
            == pool,
    decreases pool.len(),
{
    if all_distinct(pool) {
        the_rest_stays_distinct(pool, id);
    }
    if pool.len() > 0 {
        let init = pool.drop_last();
        let w = without(init, id);
        without_keeps_the_rest(init, id);
        assert(pool == init.push(pool.last()));
        assert forall|s: Seek|
            #![trigger without(pool, id).contains(s)]
            #![trigger pool.contains(s)]
            without(pool, id).contains(s) <==> pool.contains(s) && s.id != id by {
            vstd::seq_lib::lemma_seq_contains_after_push(init, pool.last(), s);
            vstd::seq_lib::lemma_seq_contains_after_push(w, pool.last(), s);
        }
        if forall|i: int| 0 <= i < pool.len() ==> #[trigger] pool[i].id != id {
            assert forall|i: int| 0 <= i < init.len() implies #[trigger] init[i].id != id by {
                assert(init[i] == pool[i]);
                assert(pool[i].id != id);
            }
            assert(pool[pool.len() - 1].id != id);
        }
    }
}

proof fn without_drops_one(pool: Seq<Seek>, i: int)
    requires
        all_distinct(pool),
        0 <= i < pool.len(),
    ensures
        without(pool, pool[i].id).len() == pool.len() - 1,
    decreases pool.len(),
{
    let init = pool.drop_last();
    let id = pool[i].id;
    assert(all_distinct(init)) by {
        assert forall|a: int, b: int| 0 <= a < b < init.len() implies #[trigger] init[a].id
            != #[trigger] init[b].id && init[a].creator != init[b].creator by {
            assert(init[a] == pool[a] && init[b] == pool[b]);
            differ_at(pool, a, b);
        }
    }
    if i == pool.len() - 1 {
        assert forall|k: int| 0 <= k < init.len() implies #[trigger] init[k].id != id by {
            assert(init[k] == pool[k]);
            assert(pool[k].id != pool[i].id);
        }
        without_keeps_the_rest(init, id);
    } else {
        assert(init[i] == pool[i]);
        assert(pool[i].id != pool[pool.len() - 1].id);
        without_drops_one(init, i);
    }
}

/// Nobody is double-booked. When every submitted seek has its own identifier and
/// creator, no user plays in two pairings, no player is still in the pool, both
/// players of a pairing differ, and pairings and pool account for every seek.
pub proof fn nobody_is_double_booked(seeks: Seq<Seek>)
    requires
        all_distinct(seeks),
    ensures
        ({
            let (pool, pairings) = play_out(seeks);
            &&& 2 * pairings.len() + pool.len() == seeks.len()
            &&& all_distinct(pool)
            &&& forall|s: Seek| #[trigger] pool.contains(s) ==> seeks.contains(s)
            &&& forall|k: int|
                0 <= k < pairings.len() ==> (#[trigger] pairings[k]).white != pairings[k].black
            &&& forall|k: int, l: int, user: UserId|
                0 <= k < l < pairings.len() ==> !(#[trigger] books(pairings[k], user)
                    && #[trigger] books(pairings[l], user))
            &&& forall|k: int, s: Seek|
                0 <= k < pairings.len() && #[trigger] pool.contains(s) ==> !#[trigger] books(
                    pairings[k],
                    s.creator,
                )
            &&& forall|k: int, user: UserId|
                0 <= k < pairings.len() && #[trigger] books(pairings[k], user) ==> exists|i: int|
                    0 <= i < seeks.len() && #[trigger] seeks[i].creator == user
        }),
    decreases seeks.len(),
{
    if seeks.len() > 0 {
        let init = seeks.drop_last();
        let last = seeks.last();
        let n = seeks.len() - 1;
        assert forall|i: int, j: int| 0 <= i < j < init.len() implies #[trigger] init[i].id
            != #[trigger] init[j].id && init[i].creator != init[j].creator by {
            assert(init[i] == seeks[i] && init[j] == seeks[j]);
            differ_at(seeks, i, j);
        }
        nobody_is_double_booked(init);
        let (pool, pairings) = play_out(init);
        let (pool2, pairings2) = play_out(seeks);
        assert(seeks == init.push(last));
        assert forall|s: Seek| init.contains(s) implies seeks.contains(s) && s.creator
            != last.creator && s.id != last.id by {
            let i = choose|i: int| 0 <= i < init.len() && init[i] == s;
            assert(seeks[i] == s);
            assert(seeks[i].id != seeks[n].id);
        }
        assert(seeks[n] == last);
        assert forall|k: int| 0 <= k < pairings.len() implies !#[trigger] books(
            pairings[k],
            last.creator,
        ) by {
            if books(pairings[k], last.creator) {
                let i = choose|i: int|
                    0 <= i < init.len() && #[trigger] init[i].creator == last.creator;
                assert(init.contains(init[i]));
            }
        }
        assert forall|k: int, user: UserId|
            0 <= k < pairings.len() && #[trigger] books(pairings[k], user) implies exists|i: int|
            0 <= i < seeks.len() && #[trigger] seeks[i].creator == user by {
            let i = choose|i: int| 0 <= i < init.len() && #[trigger] init[i].creator == user;
            assert(seeks[i].creator == user);
        }
        the_first_compatible_seek_is_taken(last, pool);
        match plan_of(last, pool) {
            SubmitPlan::Pair { matched, pairing } => {
                let i = choose|i: int|
                    0 <= i < pool.len() && #[trigger] pairing_of(last, pool[i]) == Some(pairing)
                        && matched == pool[i].id && (forall|j: int|
                        0 <= j < i ==> #[trigger] pairing_of(last, pool[j]) is None);
                let other = pool[i];
                assert(pool.contains(other));
                without_keeps_the_rest(pool, matched);
                without_drops_one(pool, i);
                a_pairing_keeps_both_seeks_terms(last, other);
                assert forall|s: Seek| #[trigger] pool2.contains(s) implies s.creator
                    != other.creator by {
                    assert(pool.contains(s));
                    let k = choose|k: int| 0 <= k < pool.len() && pool[k] == s;
                    assert(pool[k].id != pool[i].id);
                    if k < i {
                        assert(pool[k].creator != pool[i].creator);
                    } else {
                        assert(pool[i].id != pool[k].id && pool[i].creator != pool[k].creator);
                    }
                }
                assert forall|k: int, l: int, user: UserId|
                    0 <= k < l < pairings2.len() implies !(#[trigger] books(pairings2[k], user)
                    && #[trigger] books(pairings2[l], user)) by {
                    assert(pairings2[k] == pairings[k]);
                    if l == pairings.len() {
                        assert(!books(pairings[k], last.creator));
                        assert(!books(pairings[k], other.creator));
                    } else {
                        assert(pairings2[l] == pairings[l]);
                    }
                }
                assert forall|k: int, s: Seek|
                    0 <= k < pairings2.len() && #[trigger] pool2.contains(s) implies
                    !#[trigger] books(pairings2[k], s.creator) by {
                    assert(pool.contains(s));
                    assert(init.contains(s));
                    if k < pairings.len() {
                        assert(pairings2[k] == pairings[k]);
                        assert(!books(pairings[k], s.creator));
                    }
                }
                assert forall|k: int, user: UserId|
                    0 <= k < pairings2.len() && #[trigger] books(pairings2[k], user) implies exists|
                    i: int,
                |
                    0 <= i < seeks.len() && #[trigger] seeks[i].creator == user by {
                    if k < pairings.len() {
                        assert(pairings2[k] == pairings[k]);
                        assert(books(pairings[k], user));
                    } else if user == last.creator {
                        assert(seeks[n].creator == user);
                    } else {
                        assert(init.contains(other));
                        let m = choose|m: int| 0 <= m < init.len() && init[m] == other;
                        assert(seeks[m].creator == user);
                    }
                }
                assert forall|k: int| 0 <= k < pairings2.len() implies (
                #[trigger] pairings2[k]).white != pairings2[k].black by {
                    if k < pairings.len() {
                        assert(pairings2[k] == pairings[k]);
                    }
                }
            },
            SubmitPlan::Queue => {
                assert forall|s: Seek| #[trigger] pool2.contains(s) implies seeks.contains(s) by {
                    vstd::seq_lib::lemma_seq_contains_after_push(pool, last, s);
                }
                assert forall|i: int, j: int| 0 <= i < j < pool2.len() implies #[trigger] pool2[i].id
                    != #[trigger] pool2[j].id && pool2[i].creator != pool2[j].creator by {
                    assert(pool2[i] == pool[i]);
                    assert(pool.contains(pool[i]));
                    if j < pool.len() {
                        assert(pool2[j] == pool[j]);
                        assert(pool[i].id != pool[j].id);
                    }
                }
                assert forall|k: int, s: Seek|
                    0 <= k < pairings2.len() && #[trigger] pool2.contains(s) implies
                    !#[trigger] books(pairings2[k], s.creator) by {
                    vstd::seq_lib::lemma_seq_contains_after_push(pool, last, s);
                    assert(pairings2[k] == pairings[k]);
                    if s != last {
                        assert(pool.contains(s));
                    }
                }
            },
        }
    }
}

/// Whether two players' wishes for a side can both be met: not both want White, and not
/// both want Black.
pub open spec fn wishes_agree(a: ColorPreference, b: ColorPreference) -> bool {
    &&& !(a == ColorPreference::White && b == ColorPreference::White)
    &&& !(a == ColorPreference::Black && b == ColorPreference::Black)
}

/// Compatible seeks are always paired, and only those: two seeks make a game exactly when
/// they come from different users, ask for the same variant, the same time control of
/// any kind and the same rating, and their wishes for a side can both be met.
pub proof fn compatible_seeks_are_paired(a: Seek, b: Seek, r: Option<Pairing>)
    requires
        call_ensures(try_pair, (&a, &b), r),
    ensures
        r is Some <==> {
            &&& a.creator != b.creator
            &&& a.variant_id@ == b.variant_id@
            &&& a.time_control == b.time_control
            &&& a.rated == b.rated
            &&& a.color_preference == ColorPreference::White ==> b.color_preference
                != ColorPreference::White
            &&& a.color_preference == ColorPreference::Black ==> b.color_preference
                != ColorPreference::Black
        },
{
}

/// What a game made of two seeks is: its players are the two users, each on the side they
/// asked for, and it has the variant, the time control and the rating that both asked
/// for. Where neither asked for a side, the seek whose identifier comes first as text
/// plays White.
pub proof fn a_game_is_what_both_asked_for(a: Seek, b: Seek, r: Option<Pairing>)
    requires
        call_ensures(try_pair, (&a, &b), r),
    ensures
        r matches Some(p) ==> {
            &&& p.variant_id@ == a.variant_id@ && p.variant_id@ == b.variant_id@
            &&& p.time_control == a.time_control && p.time_control == b.time_control
            &&& p.rated == a.rated && p.rated == b.rated
            &&& p.white == a.creator && p.black == b.creator || p.white == b.creator && p.black
                == a.creator
            &&& a.color_preference == ColorPreference::White || b.color_preference
                == ColorPreference::Black ==> p.white == a.creator
            &&& a.color_preference == ColorPreference::Black || b.color_preference
                == ColorPreference::White ==> p.white == b.creator
            &&& a.color_preference == ColorPreference::Random && b.color_preference
                == ColorPreference::Random ==> (p.white == a.creator <==> text::lex_le(
                ids::hyphenated(a.id.0),
                ids::hyphenated(b.id.0),
            ))
        },
{
}

/// Sides are given out as wished: to different users, White to whoever asked for it and
/// Black to whoever asked for it, and not at all exactly when both ask for the same.
pub proof fn sides_are_given_out_as_wished(
    a_seek: SeekId,
    a: UserId,
    a_wish: ColorPreference,
    b_seek: SeekId,
    b: UserId,
    b_wish: ColorPreference,
    r: Option<(UserId, UserId)>,
)
    requires
        a != b,
        call_ensures(resolve_colors, (a_seek, a, a_wish, b_seek, b, b_wish), r),
    ensures
        r is Some <==> wishes_agree(a_wish, b_wish),
        r matches Some((white, black)) ==> {
            &&& white == a && black == b || white == b && black == a
            &&& a_wish == ColorPreference::White ==> white == a
            &&& a_wish == ColorPreference::Black ==> black == a
            &&& b_wish == ColorPreference::White ==> white == b
            &&& b_wish == ColorPreference::Black ==> black == b
            &&& a_wish == ColorPreference::Random && b_wish == ColorPreference::Random ==> (white
                == a <==> text::lex_le(ids::hyphenated(a_seek.0), ids::hyphenated(b_seek.0)))
        },
{
}

/// Whether two seeks can make a game.
pub open spec fn compatible(a: Seek, b: Seek) -> bool {
    &&& a.rated == b.rated
    &&& a.time_control == b.time_control
    &&& a.variant_id@ == b.variant_id@
    &&& a.creator != b.creator
    &&& wishes_agree(a.color_preference, b.color_preference)
}

/// A seek waits only when nobody in the pool would play it, and otherwise the first in
/// the pool that would is taken, on the terms of a pairing of the two.
pub proof fn a_seek_waits_only_when_nobody_fits(seek: Seek, pool: Vec<Seek>, plan: SubmitPlan)
    requires
        call_ensures(plan_submit, (&seek, &pool), plan),
    ensures
        plan is Queue <==> forall|i: int|
            0 <= i < pool@.len() ==> !compatible(seek, #[trigger] pool@[i]),
        plan matches SubmitPlan::Pair { matched, pairing } ==> exists|i: int|
            {
                &&& 0 <= i < pool@.len()
                &&& compatible(seek, #[trigger] pool@[i])
                &&& matched == pool@[i].id
                &&& pairing.white == seek.creator && pairing.black == pool@[i].creator
                    || pairing.white == pool@[i].creator && pairing.black == seek.creator
                &&& pairing.variant_id@ == seek.variant_id@
                &&& pairing.time_control == seek.time_control
                &&& pairing.rated == seek.rated
                &&& forall|j: int| 0 <= j < i ==> !compatible(seek, #[trigger] pool@[j])
            },
{
    let open = pool@;
    the_first_compatible_seek_is_taken(seek, open);
    assert forall|i: int| 0 <= i < open.len() implies (compatible(seek, #[trigger] open[i])
        <==> pairing_of(seek, open[i]) is Some) by {}
    match plan {
        SubmitPlan::Pair { matched, pairing } => {
            let i = choose|i: int|
                0 <= i < open.len() && #[trigger] pairing_of(seek, open[i]) == Some(pairing)
                    && matched == open[i].id && (forall|j: int|
                    0 <= j < i ==> #[trigger] pairing_of(seek, open[j]) is None);
            assert(compatible(seek, open[i]));
            assert forall|j: int| 0 <= j < i implies !compatible(seek, #[trigger] open[j]) by {
                assert(pairing_of(seek, open[j]) is None);
            }
        },
        SubmitPlan::Queue => {
            assert forall|i: int| 0 <= i < open.len() implies !compatible(
                seek,
                #[trigger] open[i],
            ) by {
                assert(pairing_of(seek, open[i]) is None);
            }
        },
    }
}

/// What a user is told of a submitted seek is what was done: a failure of the repository,
/// the pairing that was planned, or that the seek waits under its own identifier.
pub proof fn users_are_told_what_was_done(
    id: SeekId,
    plan: SubmitPlan,
    stored: Result<(), StorageError>,
    r: Result<SubmitOutcome, MatchmakingError>,
)
    requires
        call_ensures(submit_outcome, (id, plan, stored), r),
    ensures
        stored matches Err(e) ==> r == Err::<SubmitOutcome, MatchmakingError>(
            MatchmakingError::Storage(e),
        ),
        stored is Ok ==> r is Ok,
        stored is Ok && plan is Queue ==> r->Ok_0 == SubmitOutcome::Queued(id),
        stored is Ok && plan is Pair ==> r->Ok_0 == SubmitOutcome::Paired(plan->pairing),
{
}

/// Taking a seek out of the pool takes out that seek and no other, and keeps the order.
pub proof fn only_the_matched_seek_leaves(pool: Seq<Seek>, id: SeekId, i: int)
    requires
        all_distinct(pool),
        0 <= i < pool.len(),
        pool[i].id == id,
    ensures
        without(pool, id) == pool.take(i) + pool.skip(i + 1),
    decreases pool.len(),
{
    let init = pool.drop_last();
    assert(all_distinct(init)) by {
        assert forall|a: int, b: int| 0 <= a < b < init.len() implies #[trigger] init[a].id
            != #[trigger] init[b].id && init[a].creator != init[b].creator by {
            assert(init[a] == pool[a] && init[b] == pool[b]);
            differ_at(pool, a, b);
        }
    }
    if i == pool.len() - 1 {
        assert forall|k: int| 0 <= k < init.len() implies #[trigger] init[k].id != id by {
            assert(init[k] == pool[k]);
            assert(pool[k].id != pool[i].id);
        }
        without_keeps_the_rest(init, id);
        assert(pool.take(i) + pool.skip(i + 1) =~= init);
    } else {
        assert(init[i] == pool[i]);
        assert(pool[i].id != pool[pool.len() - 1].id);
        only_the_matched_seek_leaves(init, id, i);
        assert((init.take(i) + init.skip(i + 1)).push(pool.last()) =~= pool.take(i) + pool.skip(
            i + 1,
        ));
    }
}

/// Everybody who could play does: after any seeks by different users were submitted one
/// after the other, no two that still wait could make a game.
pub proof fn nobody_who_could_play_waits(seeks: Seq<Seek>)
    requires
        all_distinct(seeks),
    ensures
        forall|i: int, j: int|
            0 <= i < j < play_out(seeks).0.len() ==> !compatible(
                #[trigger] play_out(seeks).0[j],
                #[trigger] play_out(seeks).0[i],
            ),
    decreases seeks.len(),
{
    if seeks.len() > 0 {
        let init = seeks.drop_last();
        let last = seeks.last();
        assert forall|i: int, j: int| 0 <= i < j < init.len() implies #[trigger] init[i].id
            != #[trigger] init[j].id && init[i].creator != init[j].creator by {
            assert(init[i] == seeks[i] && init[j] == seeks[j]);
            differ_at(seeks, i, j);
        }
        nobody_who_could_play_waits(init);
        nobody_is_double_booked(init);
        let pool = play_out(init).0;
        let next = play_out(seeks).0;
        the_first_compatible_seek_is_taken(last, pool);
        match plan_of(last, pool) {
            SubmitPlan::Pair { matched, pairing } => {
                let k = choose|i: int|
                    0 <= i < pool.len() && #[trigger] pairing_of(last, pool[i]) == Some(pairing)
                        && matched == pool[i].id && (forall|j: int|
                        0 <= j < i ==> #[trigger] pairing_of(last, pool[j]) is None);
                only_the_matched_seek_leaves(pool, matched, k);
                assert forall|i: int, j: int| 0 <= i < j < next.len() implies !compatible(
                    #[trigger] next[j],
                    #[trigger] next[i],
                ) by {
                    let i0 = if i < k {
                        i
                    } else {
                        i + 1
                    };
                    let j0 = if j < k {
                        j
                    } else {
                        j + 1
                    };
                    assert(next[i] == pool[i0] && next[j] == pool[j0]);
                    assert(!compatible(pool[j0], pool[i0]));
                }
            },
            SubmitPlan::Queue => {
                assert forall|i: int, j: int| 0 <= i < j < next.len() implies !compatible(
                    #[trigger] next[j],
                    #[trigger] next[i],
                ) by {
                    assert(next[i] == pool[i]);
                    if j < pool.len() {
                        assert(next[j] == pool[j]);
                        assert(!compatible(pool[j], pool[i]));
                    } else {
                        assert(next[j] == last);
                        assert(pairing_of(last, pool[i]) is None);
                    }
                }
            },
        }
    }
}

} // verus!
