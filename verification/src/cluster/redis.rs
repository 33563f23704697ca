//! A cluster's membership in a shared store.
//!
//! Each live node has one key, a prefix and its identifier, whose value is the
//! node's address and whose time to live is the node's liveness: a node that
//! stops renewing its key is gone when the key expires.

use vstd::prelude::*;

use crate::cluster::types::{NodeId, NodeInfo};
use crate::text;

verus! {

/// The prefix of node keys unless another is chosen.
pub const DEFAULT_PREFIX: &'static str = "mcs:cluster:node:";

/// The node a key stands for: what follows the prefix, or the whole key when it
/// lacks the prefix.
pub open spec fn node_under(prefix: Seq<char>, key: Seq<char>) -> Seq<char> {
    match text::strip_prefix_spec(key, prefix) {
        Some(rest) => rest,
        None => key,
    }
}

/// One node's part in a membership that is kept in a shared store.
#[derive(Debug, PartialEq, Eq)]
pub struct RedisNodeRegistry {
    node: NodeInfo,
    ttl_secs: u64,
    prefix: String,
}

impl RedisNodeRegistry {
    /// The node itself.
    pub closed spec fn this(self) -> NodeInfo {
        self.node
    }

    /// How many seconds a key lives unless it is renewed.
    pub closed spec fn ttl(self) -> u64 {
        self.ttl_secs
    }

    /// The prefix of the keys.
    pub closed spec fn key_prefix(self) -> Seq<char> {
        self.prefix@
    }

    /// The part of `node`, whose key lives `ttl_secs` seconds, under the default
    /// prefix.
    #[must_use]
    pub fn new(node: NodeInfo, ttl_secs: u64) -> (r: Self)
        ensures
            r.this() == node,
            r.ttl() == ttl_secs,
            r.key_prefix() == DEFAULT_PREFIX@,
    {
        RedisNodeRegistry { node, ttl_secs, prefix: DEFAULT_PREFIX.to_owned() }
    }

    /// The same under another prefix, to keep clusters apart in one store.
    #[must_use]
    pub fn with_prefix(self, prefix: String) -> (r: Self)
        ensures
            r.this() == self.this(),
            r.ttl() == self.ttl(),
            r.key_prefix() == prefix@,
    {
        RedisNodeRegistry { node: self.node, ttl_secs: self.ttl_secs, prefix }
    }

    /// The node itself.
    #[must_use]
    pub fn node(&self) -> (r: &NodeInfo)
        ensures
            *r == self.this(),
    {
        &self.node
    }

    /// How many seconds the key lives unless it is renewed.
    #[must_use]
    pub fn ttl_secs(&self) -> (r: u64)
        ensures
            r == self.ttl(),
    {
        self.ttl_secs
    }

    /// The key of the node.
    #[must_use]
    pub fn self_key(&self) -> (r: String)
        ensures
            r@ == self.key_prefix() + self.this().id.0@,
    {
        text::join2(self.prefix.as_str(), self.node.id.as_str())
    }

    /// The pattern that all keys of the cluster match.
    pub fn pattern(&self) -> (r: String)
        ensures
            r@ == self.key_prefix() + "*"@,
    {
        text::join2(self.prefix.as_str(), "*")
    }

    /// The node a key stands for.
    pub fn id_from_key(&self, key: &str) -> (r: NodeId)
        ensures
            r.0@ == node_under(self.key_prefix(), key@),
    {
        match text::strip_prefix(key, self.prefix.as_str()) {
            Some(rest) => NodeId(rest),
            None => NodeId(key.to_owned()),
        }
    }

    /// The live nodes, from the scanned keys and the address read under each. A
    /// key that expired between the scan and the read has no address and is left
    /// out.
    pub fn live_nodes(&self, found: &Vec<(String, Option<String>)>) -> (r: Vec<NodeInfo>)
        ensures
            nodes_view(r@) == live(self.key_prefix(), found@),
    {
        let mut nodes: Vec<NodeInfo> = Vec::new();
        let mut i: usize = 0;
        assert(nodes_view(nodes@) =~= live(self.key_prefix(), found@.take(0)));
        while i < found.len()
            invariant
                i <= found@.len(),
                nodes_view(nodes@) == live(self.key_prefix(), found@.take(i as int)),
            decreases found@.len() - i,
        {
            let ghost before: Seq<(Seq<char>, Seq<char>)> = nodes_view(nodes@);
            assert(found@.take(i + 1).drop_last() =~= found@.take(i as int));
            if let Some(address) = &found[i].1 {
                let id = self.id_from_key(found[i].0.as_str());
                nodes.push(NodeInfo::new(id, address.clone()));
                assert(nodes_view(nodes@) =~= before.push(
                    (node_under(self.key_prefix(), found@[i as int].0@), address@),
                ));
            }
            i = i + 1;
        }
        assert(found@.take(found@.len() as int) =~= found@);
        nodes
    }
}

impl Clone for RedisNodeRegistry {
    fn clone(&self) -> (r: Self)
        ensures
            r.this() == self.this(),
            r.ttl() == self.ttl(),
            r.key_prefix() == self.key_prefix(),
    {
        RedisNodeRegistry {
            node: self.node.clone(),
            ttl_secs: self.ttl_secs,
            prefix: self.prefix.clone(),
        }
    }
}

/// The identifiers and addresses of a list of nodes.
pub open spec fn nodes_view(nodes: Seq<NodeInfo>) -> Seq<(Seq<char>, Seq<char>)> {
    Seq::new(nodes.len(), |i: int| (nodes[i].id.0@, nodes[i].address@))
}

/// The identifiers and addresses of the live nodes among the scanned keys, in the
/// order of the scan.
pub open spec fn live(prefix: Seq<char>, found: Seq<(String, Option<String>)>) -> Seq<
    (Seq<char>, Seq<char>),
>
    decreases found.len(),
{
    if found.len() == 0 {
        seq![]
    } else {
        let before = live(prefix, found.drop_last());
        match found.last().1 {
            Some(address) => before.push((node_under(prefix, found.last().0@), address@)),
            None => before,
        }
    }
}

/// The key of a node stands for that node, and different nodes have different
/// keys.
pub proof fn keys_stand_for_their_nodes(prefix: Seq<char>, a: Seq<char>, b: Seq<char>)
    ensures
        node_under(prefix, prefix + a) == a,
        prefix + a == prefix + b ==> a == b,
{
    assert((prefix + a).subrange(0, prefix.len() as int) =~= prefix);
    assert((prefix + a).skip(prefix.len() as int) =~= a);
    assert((prefix + b).skip(prefix.len() as int) =~= b);
}

/// A node is known to the others by its own key: its key reads back as its identifier,
/// whatever the prefix, and the key is found by the pattern of the cluster.
pub proof fn a_node_is_found_by_its_key(
    node: NodeInfo,
    ttl: u64,
    prefix: String,
    plain: RedisNodeRegistry,
    r: RedisNodeRegistry,
    key: String,
    pattern: String,
    id: NodeId,
    kept: &NodeInfo,
    lives: u64,
    key_str: &str,
)
    requires
        call_ensures(RedisNodeRegistry::new, (node, ttl), plain),
        call_ensures(RedisNodeRegistry::with_prefix, (plain, prefix), r),
        call_ensures(RedisNodeRegistry::self_key, (&r,), key),
        call_ensures(RedisNodeRegistry::pattern, (&r,), pattern),
        key_str@ == key@,
        call_ensures(RedisNodeRegistry::id_from_key, (&r, key_str), id),
        call_ensures(RedisNodeRegistry::node, (&r,), kept),
        call_ensures(RedisNodeRegistry::ttl_secs, (&r,), lives),
    ensures
        key@ == prefix@ + node.id.0@,
        id.0@ == node.id.0@,
        pattern@ == prefix@.push('*'),
        *kept == node,
        lives == ttl,
        plain.key_prefix() == "mcs:cluster:node:"@,
{
    keys_stand_for_their_nodes(prefix@, node.id.0@, node.id.0@);
    reveal_strlit("*");
    assert(pattern@ =~= prefix@.push('*'));
}

proof fn live_are_those_with_an_address(
    prefix: Seq<char>,
    found: Seq<(String, Option<String>)>,
    entry: (Seq<char>, Seq<char>),
)
    ensures
        live(prefix, found).contains(entry) <==> exists|i: int|
            0 <= i < found.len() && (#[trigger] found[i]).1 is Some && found[i].1->0@ == entry.1
                && node_under(prefix, found[i].0@) == entry.0,
        (forall|i: int| 0 <= i < found.len() ==> (#[trigger] found[i]).1 is Some) ==> live(
            prefix,
            found,
        ).len() == found.len(),
        live(prefix, found).len() <= found.len(),
    decreases found.len(),
{
    if found.len() > 0 {
        let init = found.drop_last();
        let n = found.len() - 1;
        live_are_those_with_an_address(prefix, init, entry);
        let before = live(prefix, init);
        let all = live(prefix, found);
        if found[n].1 is Some {
            let last = (node_under(prefix, found[n].0@), found[n].1->0@);
            vstd::seq_lib::lemma_seq_contains_after_push(before, last, entry);
        }
        if all.contains(entry) {
            if before.contains(entry) {
                let i = choose|i: int|
                    0 <= i < init.len() && (#[trigger] init[i]).1 is Some && init[i].1->0@
                        == entry.1 && node_under(prefix, init[i].0@) == entry.0;
                assert(found[i] == init[i]);
            } else {
                assert(found[n].1 is Some);
            }
        }
        if exists|i: int|
            0 <= i < found.len() && (#[trigger] found[i]).1 is Some && found[i].1->0@ == entry.1
                && node_under(prefix, found[i].0@) == entry.0 {
            let i = choose|i: int|
                0 <= i < found.len() && (#[trigger] found[i]).1 is Some && found[i].1->0@
                    == entry.1 && node_under(prefix, found[i].0@) == entry.0;
            if i < n {
                assert(init[i] == found[i]);
            }
        }
        if forall|i: int| 0 <= i < found.len() ==> (#[trigger] found[i]).1 is Some {
            assert forall|i: int| 0 <= i < init.len() implies (#[trigger] init[i]).1 is Some by {
                assert(found[i].1 is Some);
            }
            assert(found[n].1 is Some);
        }
    }
}

/// The live nodes are exactly those under whose key an address was read, each with that
/// address; a key that had expired stands for no live node.
pub proof fn live_nodes_have_an_address(
    r: RedisNodeRegistry,
    found: Vec<(String, Option<String>)>,
    nodes: Vec<NodeInfo>,
    id: Seq<char>,
    address: Seq<char>,
)
    requires
        call_ensures(RedisNodeRegistry::live_nodes, (&r, &found), nodes),
    ensures
        (exists|k: int|
            0 <= k < nodes@.len() && (#[trigger] nodes@[k]).id.0@ == id && nodes@[k].address@
                == address) <==> exists|i: int|
            0 <= i < found@.len() && (#[trigger] found@[i]).1 is Some && found@[i].1->0@ == address
                && node_under(r.key_prefix(), found@[i].0@) == id,
        nodes@.len() <= found@.len(),
{
    let shown = nodes_view(nodes@);
    live_are_those_with_an_address(r.key_prefix(), found@, (id, address));
    assert(shown.len() == nodes@.len());
    if exists|k: int|
        0 <= k < nodes@.len() && (#[trigger] nodes@[k]).id.0@ == id && nodes@[k].address@
            == address {
        let k = choose|k: int|
            0 <= k < nodes@.len() && (#[trigger] nodes@[k]).id.0@ == id && nodes@[k].address@
                == address;
        assert(shown[k] == (id, address));
    }
    if shown.contains((id, address)) {
        let k = choose|k: int| 0 <= k < shown.len() && shown[k] == (id, address);
        assert(nodes@[k].id.0@ == id && nodes@[k].address@ == address);
    }
}

} // verus!
