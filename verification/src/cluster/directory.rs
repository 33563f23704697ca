//! Rendezvous ownership of games.
//!
//! Every node computes the same pure function over the same set of live nodes to
//! decide who owns a game: the node with the largest weight, which is a hash of
//! the node's and the game's identifiers. Nodes therefore agree without talking
//! to each other, and when a node joins or leaves only the games that go to it or
//! come from it change hands.

use vstd::prelude::*;

use crate::cluster::types::{NodeId, NodeInfo};
use crate::text;

verus! {

/// Offset basis of the 64-bit FNV-1a hash.
pub const FNV_OFFSET_BASIS: u64 = 0xcbf2_9ce4_8422_2325;

/// Prime of the 64-bit FNV-1a hash.
pub const FNV_PRIME: u64 = 0x0000_0100_0000_01b3;

/// The hash after one more byte.
pub open spec fn fnv_step(hash: u64, byte: u8) -> u64 {
    (hash ^ (byte as u64)).wrapping_mul(FNV_PRIME)
}

/// The hash after more bytes.
pub open spec fn fnv(hash: u64, bytes: Seq<u8>) -> u64
    decreases bytes.len(),
{
    if bytes.len() == 0 {
        hash
    } else {
        fnv_step(fnv(hash, bytes.drop_last()), bytes.last())
    }
}

/// The bytes that are hashed for a node and a game: both identifiers, with a byte
/// between them that occurs in no text.
pub open spec fn hashed_bytes(node_id: Seq<char>, game_id: Seq<char>) -> Seq<u8> {
    vstd::utf8::encode_utf8(node_id) + seq![0xffu8] + vstd::utf8::encode_utf8(game_id)
}

/// The weight of a node for a game.
pub open spec fn weight_of(node_id: Seq<char>, game_id: Seq<char>) -> u64 {
    fnv(FNV_OFFSET_BASIS, hashed_bytes(node_id, game_id))
}

/// Whether node `b` is at least as good an owner of the game as node `a`: by
/// weight, and by identifier where the weights are equal.
pub open spec fn yields_to(game_id: Seq<char>, a: Seq<char>, b: Seq<char>) -> bool {
    let wa = weight_of(a, game_id);
    let wb = weight_of(b, game_id);
    wa < wb || (wa == wb && text::lex_le(a, b))
}

/// The position of the owner among the nodes: the last of the best.
pub open spec fn owner_at(game_id: Seq<char>, nodes: Seq<NodeInfo>) -> int
    decreases nodes.len(),
{
    if nodes.len() <= 1 {
        0
    } else {
        let best = owner_at(game_id, nodes.drop_last());
        if yields_to(game_id, nodes[best].id.0@, nodes.last().id.0@) {
            nodes.len() - 1
        } else {
            best
        }
    }
}

/// The identifier of the owner of a game.
pub open spec fn owner_id(game_id: Seq<char>, nodes: Seq<NodeInfo>) -> Seq<char> {
    nodes[owner_at(game_id, nodes)].id.0@
}

/// Whether a node with this identifier is among the nodes.
pub open spec fn has_node(nodes: Seq<NodeInfo>, id: Seq<char>) -> bool {
    exists|i: int| 0 <= i < nodes.len() && (#[trigger] nodes[i]).id.0@ == id
}

fn mix(hash: u64, bytes: &[u8]) -> (r: u64)
    ensures
        r == fnv(hash, bytes@),
{
    let mut h: u64 = hash;
    let mut i: usize = 0;
    assert(bytes@.take(0) =~= Seq::<u8>::empty());
    while i < bytes.len()
        invariant
            i <= bytes@.len(),
            h == fnv(hash, bytes@.take(i as int)),
        decreases bytes@.len() - i,
    {
        assert(bytes@.take(i + 1).drop_last() =~= bytes@.take(i as int));
        h = h ^ (bytes[i] as u64);
        h = h.wrapping_mul(FNV_PRIME);
        i = i + 1;
    }
    assert(bytes@.take(bytes@.len() as int) =~= bytes@);
    h
}

proof fn fnv_of_parts(hash: u64, a: Seq<u8>, b: Seq<u8>)
    ensures
        fnv(fnv(hash, a), b) == fnv(hash, a + b),
    decreases b.len(),
{
    if b.len() == 0 {
        assert(a + b =~= a);
    } else {
        fnv_of_parts(hash, a, b.drop_last());
        assert((a + b).drop_last() =~= a + b.drop_last());
        assert((a + b).last() == b.last());
    }
}

/// The weight of a node for a game: FNV-1a over both identifiers.
pub fn weight(node_id: &str, game_id: &str) -> (r: u64)
    ensures
        r == weight_of(node_id@, game_id@),
{
    let node: u64 = mix(FNV_OFFSET_BASIS, node_id.as_bytes());
    let separator: [u8; 1] = [0xff];
    let separated: u64 = mix(node, &separator);
    let all: u64 = mix(separated, game_id.as_bytes());
    proof {
        let a = vstd::utf8::encode_utf8(node_id@);
        let b = vstd::utf8::encode_utf8(game_id@);
        assert(separator@ =~= seq![0xffu8]);
        fnv_of_parts(FNV_OFFSET_BASIS, a, seq![0xffu8]);
        fnv_of_parts(FNV_OFFSET_BASIS, a + seq![0xffu8], b);
    }
    all
}

/// The owner of a game among the nodes: the one with the largest weight, and of
/// equal weights the one with the last identifier. No node, no owner.
#[must_use]
pub fn owner<'a>(game_id: &str, nodes: &'a [NodeInfo]) -> (r: Option<&'a NodeInfo>)
    ensures
        match r {
            Some(node) => nodes@.len() > 0 && *node == nodes@[owner_at(game_id@, nodes@)],
            None => nodes@.len() == 0,
        },
{
    if nodes.len() == 0 {
        return None;
    }
    let mut best: usize = 0;
    let mut best_weight: u64 = weight(nodes[0].id.as_str(), game_id);
    let mut i: usize = 1;
    while i < nodes.len()
        invariant
            1 <= i <= nodes@.len(),
            best < i,
            best == owner_at(game_id@, nodes@.take(i as int)),
            best_weight == weight_of(nodes@[best as int].id.0@, game_id@),
        decreases nodes@.len() - i,
    {
        let w: u64 = weight(nodes[i].id.as_str(), game_id);
        assert(nodes@.take(i + 1).drop_last() =~= nodes@.take(i as int));
        if best_weight < w || (best_weight == w && text::str_le(
            nodes[best].id.as_str(),
            nodes[i].id.as_str(),
        )) {
            best = i;
            best_weight = w;
        }
        i = i + 1;
    }
    assert(nodes@.take(nodes@.len() as int) =~= nodes@);
    Some(&nodes[best])
}

/// Whether `this` node owns the game.
#[must_use]
pub fn is_owner(game_id: &str, this: &NodeId, nodes: &[NodeInfo]) -> (r: bool)
    ensures
        r == (nodes@.len() > 0 && owner_id(game_id@, nodes@) == this.0@),
{
    match owner(game_id, nodes) {
        Some(node) => text::str_eq(node.id.as_str(), this.as_str()),
        None => false,
    }
}

/// Maps games to the nodes that own them, by a pure function.
pub trait Directory {
    /// What `owner` picks: a position among the nodes.
    spec fn picks(&self, game_id: Seq<char>, nodes: Seq<NodeInfo>) -> int;

    /// The owner of a game; none when there are no nodes.
    fn owner<'a>(&self, game_id: &str, nodes: &'a [NodeInfo]) -> (r: Option<&'a NodeInfo>)
        ensures
            match r {
                Some(node) => nodes@.len() > 0 && *node == nodes@[self.picks(game_id@, nodes@)],
                None => nodes@.len() == 0,
            },
            nodes@.len() > 0 ==> 0 <= self.picks(game_id@, nodes@) < nodes@.len(),
    ;

    /// Whether `this` node owns the game.
    fn is_owner(&self, game_id: &str, this: &NodeId, nodes: &[NodeInfo]) -> (r: bool)
        ensures
            nodes@.len() > 0 ==> 0 <= self.picks(game_id@, nodes@) < nodes@.len(),
            r == (nodes@.len() > 0 && nodes@[self.picks(game_id@, nodes@)].id.0@ == this.0@),
    ;
}

/// The rendezvous directory. It holds no state.
#[derive(Debug, Clone, Copy, PartialEq, Eq)]
pub struct HrwDirectory;

impl HrwDirectory {
    /// Builds the directory.
    #[must_use]
    pub fn new() -> (r: Self)
        ensures
            r == HrwDirectory,
    {
        HrwDirectory
    }
}

impl Default for HrwDirectory {
    /// The directory.
    fn default() -> (r: Self)
        ensures
            r == HrwDirectory,
    {
        HrwDirectory
    }
}

impl Directory for HrwDirectory {
    open spec fn picks(&self, game_id: Seq<char>, nodes: Seq<NodeInfo>) -> int {
        owner_at(game_id, nodes)
    }

    fn owner<'a>(&self, game_id: &str, nodes: &'a [NodeInfo]) -> (r: Option<&'a NodeInfo>) {
        proof {
            if nodes@.len() > 0 {
                the_owner_is_the_best(game_id@, nodes@);
            }
        }
        self::owner(game_id, nodes)
    }

    fn is_owner(&self, game_id: &str, this: &NodeId, nodes: &[NodeInfo]) -> (r: bool) {
        proof {
            if nodes@.len() > 0 {
                the_owner_is_the_best(game_id@, nodes@);
            }
        }
        self::is_owner(game_id, this, nodes)
    }
}

/// The owner is one of the nodes, and every node yields to it.
pub proof fn the_owner_is_the_best(game_id: Seq<char>, nodes: Seq<NodeInfo>)
    requires
        nodes.len() > 0,
    ensures
        0 <= owner_at(game_id, nodes) < nodes.len(),
        forall|i: int|
            0 <= i < nodes.len() ==> yields_to(
                game_id,
                (#[trigger] nodes[i]).id.0@,
                owner_id(game_id, nodes),
            ),
    decreases nodes.len(),
{
    let last = nodes.last().id.0@;
    text::lex_le_reflexive(last);
    if nodes.len() > 1 {
        let init = nodes.drop_last();
        the_owner_is_the_best(game_id, init);
        let best = owner_id(game_id, init);
        assert(nodes[owner_at(game_id, init)] == init[owner_at(game_id, init)]);
        text::lex_le_total(best, last);
        assert forall|i: int| 0 <= i < nodes.len() implies yields_to(
            game_id,
            (#[trigger] nodes[i]).id.0@,
            owner_id(game_id, nodes),
        ) by {
            if i < nodes.len() - 1 {
                assert(nodes[i] == init[i]);
                assert(yields_to(game_id, init[i].id.0@, best));
                if weight_of(init[i].id.0@, game_id) == weight_of(best, game_id) && weight_of(
                    best,
                    game_id,
                ) == weight_of(last, game_id) && text::lex_le(best, last) {
                    text::lex_le_transitive(init[i].id.0@, best, last);
                }
            }
        }
    }
}

/// The owner depends on which nodes there are and not on their order, and a
/// smaller cluster that still has the owner keeps it: when nodes leave, only the
/// games that they owned change hands.
pub proof fn leaving_moves_only_the_leavers_games(
    game_id: Seq<char>,
    nodes: Seq<NodeInfo>,
    left: Seq<NodeInfo>,
)
    requires
        nodes.len() > 0,
        left.len() > 0,
        forall|id: Seq<char>| #[trigger] has_node(left, id) ==> has_node(nodes, id),
        has_node(left, owner_id(game_id, nodes)),
    ensures
        owner_id(game_id, left) == owner_id(game_id, nodes),
{
    let a = owner_id(game_id, nodes);
    let b = owner_id(game_id, left);
    the_owner_is_the_best(game_id, nodes);
    the_owner_is_the_best(game_id, left);
    assert(has_node(left, b)) by {
        assert(left[owner_at(game_id, left)].id.0@ == b);
    }
    let i = choose|i: int| 0 <= i < nodes.len() && (#[trigger] nodes[i]).id.0@ == b;
    let j = choose|j: int| 0 <= j < left.len() && (#[trigger] left[j]).id.0@ == a;
    assert(yields_to(game_id, nodes[i].id.0@, a));
    assert(yields_to(game_id, left[j].id.0@, b));
    text::lex_le_antisymmetric(a, b);
}

/// Nodes that see the same cluster agree on every owner, whatever order they list
/// it in.
pub proof fn the_order_of_nodes_does_not_matter(
    game_id: Seq<char>,
    a: Seq<NodeInfo>,
    b: Seq<NodeInfo>,
)
    requires
        a.len() > 0,
        forall|id: Seq<char>| #[trigger] has_node(a, id) <==> has_node(b, id),
    ensures
        b.len() > 0,
        owner_id(game_id, a) == owner_id(game_id, b),
{
    the_owner_is_the_best(game_id, a);
    let id = owner_id(game_id, a);
    assert(has_node(a, id)) by {
        assert(a[owner_at(game_id, a)].id.0@ == id);
    }
    assert(has_node(b, id));
    leaving_moves_only_the_leavers_games(game_id, a, b);
}

/// When a node joins, every game stays with its owner or goes to the new node.
pub proof fn joining_takes_games_only_for_the_newcomer(
    game_id: Seq<char>,
    nodes: Seq<NodeInfo>,
    newcomer: NodeInfo,
)
    requires
        nodes.len() > 0,
    ensures
        ({
            let now = owner_id(game_id, nodes.push(newcomer));
            now == owner_id(game_id, nodes) || now == newcomer.id.0@
        }),
{
    let grown = nodes.push(newcomer);
    assert(grown.drop_last() =~= nodes);
    the_owner_is_the_best(game_id, nodes);
    assert(grown[owner_at(game_id, nodes)] == nodes[owner_at(game_id, nodes)]);
}

/// A single node owns every game.
pub proof fn a_single_node_owns_everything(game_id: Seq<char>, node: NodeInfo)
    ensures
        owner_id(game_id, seq![node]) == node.id.0@,
{
}

proof fn utf8_has_no_ff(s: Seq<char>)
    ensures
        forall|i: int|
            0 <= i < vstd::utf8::encode_utf8(s).len() ==> #[trigger] vstd::utf8::encode_utf8(s)[i]
                != 0xff,
    decreases s.len(),
{
    if s.len() > 0 {
        let c = s[0] as u32;
        let head = vstd::utf8::encode_scalar(c);
        let rest = vstd::utf8::encode_utf8(s.drop_first());
        utf8_has_no_ff(s.drop_first());
        assert((c & 0x7F) as u8 != 0xff) by (bit_vector);
        assert(0xC0 | ((c >> 6) & 0x1F) as u8 != 0xff) by (bit_vector);
        assert(0xE0 | ((c >> 12) & 0x0F) as u8 != 0xff) by (bit_vector);
        assert(0xF0 | ((c >> 18) & 0x7) as u8 != 0xff) by (bit_vector);
        assert(0x80 | (c & 0x3F) as u8 != 0xff) by (bit_vector);
        assert(0x80 | ((c >> 6) & 0x3F) as u8 != 0xff) by (bit_vector);
        assert(0x80 | ((c >> 12) & 0x3F) as u8 != 0xff) by (bit_vector);
        assert forall|i: int|
            0 <= i < vstd::utf8::encode_utf8(s).len() implies #[trigger] vstd::utf8::encode_utf8(
            s,
        )[i] != 0xff by {
            if i < head.len() {
                assert(vstd::utf8::encode_utf8(s)[i] == head[i]);
            } else {
                assert(vstd::utf8::encode_utf8(s)[i] == rest[i - head.len()]);
            }
        }
    }
}

/// Where one identifier ends and the other begins is never in doubt: two pairs of
/// a node and a game are hashed from the same bytes only when they are the same
/// pair.
pub proof fn hashed_bytes_tell_pairs_apart(
    node_a: Seq<char>,
    game_a: Seq<char>,
    node_b: Seq<char>,
    game_b: Seq<char>,
)
    ensures
        hashed_bytes(node_a, game_a) == hashed_bytes(node_b, game_b) ==> node_a == node_b && game_a
            == game_b,
{
    let na = vstd::utf8::encode_utf8(node_a);
    let nb = vstd::utf8::encode_utf8(node_b);
    let ga = vstd::utf8::encode_utf8(game_a);
    let gb = vstd::utf8::encode_utf8(game_b);
    utf8_has_no_ff(node_a);
    utf8_has_no_ff(node_b);
    let a = hashed_bytes(node_a, game_a);
    let b = hashed_bytes(node_b, game_b);
    if a == b {
        assert(a[na.len() as int] == 0xff && b[nb.len() as int] == 0xff);
        if na.len() < nb.len() {
            assert(b[na.len() as int] == nb[na.len() as int]);
        }
        if nb.len() < na.len() {
            assert(a[nb.len() as int] == na[nb.len() as int]);
        }
        assert(na =~= a.subrange(0, na.len() as int));
        assert(nb =~= b.subrange(0, nb.len() as int));
        assert(ga =~= a.subrange(na.len() as int + 1, a.len() as int));
        assert(gb =~= b.subrange(nb.len() as int + 1, b.len() as int));
        vstd::utf8::encode_utf8_decode_utf8(node_a);
        vstd::utf8::encode_utf8_decode_utf8(node_b);
        vstd::utf8::encode_utf8_decode_utf8(game_a);
        vstd::utf8::encode_utf8_decode_utf8(game_b);
    }
}

/// The hash of a node and a game is the 64-bit FNV-1a hash: it starts from the offset
/// basis, and each byte is mixed in by an exclusive or and a product with the prime,
/// modulo two to the power of 64.
pub proof fn weights_are_fnv_hashes(hash: u64, bytes: Seq<u8>, byte: u8)
    ensures
        fnv(hash, seq![]) == hash,
        fnv(hash, bytes.push(byte)) == (fnv(hash, bytes) ^ (byte as u64)) * 1_099_511_628_211
            % 18_446_744_073_709_551_616,
{
    let all = bytes.push(byte);
    assert(all.drop_last() =~= bytes);
    assert(all.last() == byte);
    let mixed = fnv(hash, bytes) ^ (byte as u64);
    assert(fnv(hash, all) == mixed.wrapping_mul(FNV_PRIME));
}

/// The weight of a node for a game hashes the node's identifier, a byte that occurs in no
/// text, and the game's identifier, from the offset basis on.
pub proof fn a_weight_hashes_node_and_game(node: &str, game: &str, w: u64)
    requires
        call_ensures(weight, (node, game), w),
    ensures
        w == fnv(
            14_695_981_039_346_656_037,
            vstd::utf8::encode_utf8(node@) + seq![0xffu8] + vstd::utf8::encode_utf8(game@),
        ),
{
}

/// The owner of a game is a live node that no other live node outweighs; among nodes of
/// equal weight it is one whose identifier comes last as text. There is an owner exactly
/// when there is a node.
pub proof fn no_node_outweighs_the_owner(
    game: &str,
    nodes: &[NodeInfo],
    r: Option<&NodeInfo>,
    i: int,
    w: u64,
    owner_weight: u64,
)
    requires
        call_ensures(owner, (game, nodes), r),
        0 <= i < nodes@.len(),
        w == weight_of(nodes@[i].id.0@, game@),
        r is Some ==> owner_weight == weight_of(r->0.id.0@, game@),
    ensures
        r is Some,
        nodes@.contains(*r->0),
        w <= owner_weight,
        w == owner_weight ==> text::lex_le(nodes@[i].id.0@, r->0.id.0@),
{
    the_owner_is_the_best(game@, nodes@);
    assert(yields_to(game@, nodes@[i].id.0@, owner_id(game@, nodes@)));
    assert(nodes@[owner_at(game@, nodes@)] == *r->0);
}

/// With no live nodes nobody owns a game.
pub proof fn an_empty_cluster_owns_nothing(
    game: &str,
    nodes: &[NodeInfo],
    this: NodeId,
    r: Option<&NodeInfo>,
    mine: bool,
)
    requires
        nodes@.len() == 0,
        call_ensures(owner, (game, nodes), r),
        call_ensures(is_owner, (game, &this, nodes), mine),
    ensures
        r is None,
        !mine,
{
}

/// All nodes agree on the owner: a node says that it owns a game exactly when it is the
/// owner that every node computes, so that exactly one identifier does.
pub proof fn exactly_one_node_owns_a_game(
    game: &str,
    nodes: &[NodeInfo],
    a: NodeId,
    b: NodeId,
    r: Option<&NodeInfo>,
    mine: bool,
    theirs: bool,
)
    requires
        nodes@.len() > 0,
        call_ensures(owner, (game, nodes), r),
        call_ensures(is_owner, (game, &a, nodes), mine),
        call_ensures(is_owner, (game, &b, nodes), theirs),
    ensures
        r is Some,
        mine <==> a.0@ == r->0.id.0@,
        mine && theirs ==> a.0@ == b.0@,
{
}

/// The rendezvous directory names a node that no node outweighs, and of those the one
/// whose identifier comes last as text.
pub proof fn the_directory_names_the_heaviest_node(
    directory: HrwDirectory,
    game: Seq<char>,
    nodes: Seq<NodeInfo>,
    i: int,
)
    requires
        0 <= i < nodes.len(),
    ensures
        ({
            let at = directory.picks(game, nodes);
            let mine = weight_of(nodes[i].id.0@, game);
            let best = weight_of(nodes[at].id.0@, game);
            &&& 0 <= at < nodes.len()
            &&& mine <= best
            &&& mine == best ==> text::lex_le(nodes[i].id.0@, nodes[at].id.0@)
        }),
{
    the_owner_is_the_best(game, nodes);
    assert(yields_to(game, nodes[i].id.0@, owner_id(game, nodes)));
}

} // verus!
