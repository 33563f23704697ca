use std::collections::HashMap;

use mcs::cluster::directory::{is_owner, owner, weight, Directory, HrwDirectory};
use mcs::cluster::error::ClusterError;
use mcs::cluster::redis::RedisNodeRegistry;
use mcs::cluster::redis_bus::RedisEventBus;
use mcs::cluster::registry::LocalRegistry;
use mcs::cluster::types::{NodeId, NodeInfo};

fn nodes(ids: &[&str]) -> Vec<NodeInfo> {
    ids.iter()
        .map(|id| NodeInfo::new(NodeId::from(*id), format!("http://{id}:8080")))
        .collect()
}

#[test]
fn empty_node_set_has_no_owner() {
    assert!(owner("game-1", &[]).is_none());
    assert!(!is_owner("game-1", &NodeId::from("a"), &[]));
}

#[test]
fn ownership_is_deterministic() {
    let ns = nodes(&["a", "b", "c"]);
    let first = owner("game-42", &ns).unwrap().id.clone();
    for _ in 0..100 {
        assert_eq!(owner("game-42", &ns).unwrap().id, first);
    }
    let dir = HrwDirectory::new();
    assert_eq!(dir.owner("game-42", &ns).unwrap().id, first);
}

#[test]
fn order_of_nodes_does_not_change_owner() {
    let ascending = nodes(&["a", "b", "c"]);
    let descending = nodes(&["c", "b", "a"]);
    for g in 0..200 {
        let game = format!("game-{g}");
        assert_eq!(
            owner(&game, &ascending).unwrap().id,
            owner(&game, &descending).unwrap().id,
            "ordering of the live set must not affect ownership"
        );
    }
}

#[test]
fn every_game_maps_to_some_node() {
    let ns = nodes(&["a", "b", "c"]);
    for g in 0..1000 {
        let game = format!("game-{g}");
        assert!(owner(&game, &ns).is_some());
    }
}

#[test]
fn distribution_is_reasonably_even() {
    let ns = nodes(&["a", "b", "c"]);
    let total = 30_000;
    let mut counts: HashMap<NodeId, u32> = HashMap::new();
    for g in 0..total {
        let game = format!("game-{g}");
        let id = owner(&game, &ns).unwrap().id.clone();
        *counts.entry(id).or_default() += 1;
    }
    let expected = total / ns.len() as u32;
    let tolerance = (f64::from(expected) * 0.15) as u32;
    for node in &ns {
        let got = counts.get(&node.id).copied().unwrap_or(0);
        assert!(
            got.abs_diff(expected) <= tolerance,
            "node {} owned {got} games, expected ~{expected} (±{tolerance})",
            node.id.to_string()
        );
    }
}

#[test]
fn removing_a_node_only_reassigns_its_own_games() {
    let before = nodes(&["a", "b", "c"]);
    let after = nodes(&["a", "b"]);
    let removed = NodeId::from("c");

    let total = 5_000;
    for g in 0..total {
        let game = format!("game-{g}");
        let owner_before = owner(&game, &before).unwrap().id.clone();
        let owner_after = owner(&game, &after).unwrap().id.clone();

        if owner_before == removed {
            assert_ne!(owner_after, removed);
            assert!(owner_after == NodeId::from("a") || owner_after == NodeId::from("b"));
        } else {
            assert_eq!(
                owner_before, owner_after,
                "game {game} moved despite its owner staying live"
            );
        }
    }
}

#[test]
fn adding_a_node_only_takes_games_for_the_newcomer() {
    let before = nodes(&["a", "b"]);
    let after = nodes(&["a", "b", "c"]);
    let mut taken = 0;
    for g in 0..2_000 {
        let game = format!("game-{g}");
        let was = owner(&game, &before).unwrap().id.clone();
        let is = owner(&game, &after).unwrap().id.clone();
        if is == NodeId::from("c") {
            taken += 1;
        } else {
            assert_eq!(was, is);
        }
    }
    assert!(taken > 0);
}

#[test]
fn is_owner_agrees_with_owner() {
    let ns = nodes(&["a", "b", "c"]);
    for g in 0..500 {
        let game = format!("game-{g}");
        let winner = owner(&game, &ns).unwrap().id.clone();
        for node in &ns {
            assert_eq!(is_owner(&game, &node.id, &ns), node.id == winner);
            assert_eq!(
                HrwDirectory::default().is_owner(&game, &node.id, &ns),
                node.id == winner
            );
        }
    }
}

#[test]
fn weight_separates_concatenation_ambiguity() {
    assert_ne!(weight("ab", "c"), weight("a", "bc"));
}

#[test]
fn weight_is_fnv_1a_over_both_ids() {
    fn fnv(bytes: &[u8]) -> u64 {
        let mut hash: u64 = 0xcbf2_9ce4_8422_2325;
        for b in bytes {
            hash ^= u64::from(*b);
            hash = hash.wrapping_mul(0x0000_0100_0000_01b3);
        }
        hash
    }
    assert_eq!(weight("node-a", "game-1"), fnv(b"node-a\xffgame-1"));
    assert_eq!(weight("", ""), fnv(b"\xff"));
    let mut accented: Vec<u8> = "n\u{e9}".as_bytes().to_vec();
    accented.push(0xff);
    accented.extend("\u{1F600}".bytes());
    assert_eq!(weight("n\u{e9}", "\u{1F600}"), fnv(&accented));
}

#[test]
fn equal_ids_yield_the_last_listed_node() {
    let twins = vec![
        NodeInfo::new(NodeId::from("a"), "http://first".to_owned()),
        NodeInfo::new(NodeId::from("a"), "http://second".to_owned()),
    ];
    assert_eq!(owner("g", &twins).unwrap().address, "http://second");
}

#[test]
fn node_id_display_and_as_str_match() {
    let id = NodeId::from("beta");
    assert_eq!(id.as_str(), "beta");
    assert_eq!(id.to_string(), "beta");
    assert_eq!(NodeId::from("beta".to_owned()), id);
}

fn me() -> NodeInfo {
    NodeInfo::new(NodeId::from("solo"), "http://127.0.0.1:8080".to_owned())
}

#[test]
fn live_nodes_returns_the_single_node() {
    let reg = LocalRegistry::new(me());
    reg.register().unwrap();
    reg.heartbeat().unwrap();
    assert_eq!(reg.live_nodes().unwrap(), vec![me()]);
    assert_eq!(reg.node(), &me());
}

#[test]
fn single_node_owns_any_game() {
    let reg = LocalRegistry::new(me());
    let nodes = reg.live_nodes().unwrap();
    for g in 0..200 {
        let game = format!("game-{g}");
        assert!(is_owner(&game, &NodeId::from("solo"), &nodes));
    }
}

#[test]
fn leave_then_live_nodes_still_succeeds() {
    let reg = LocalRegistry::new(me());
    reg.leave().unwrap();
    assert_eq!(reg.live_nodes().unwrap(), vec![me()]);
}

#[test]
fn node_keys_carry_the_prefix_and_give_the_id_back() {
    let reg = RedisNodeRegistry::new(me(), 30);
    assert_eq!(reg.self_key(), "mcs:cluster:node:solo");
    assert_eq!(reg.pattern(), "mcs:cluster:node:*");
    assert_eq!(reg.ttl_secs(), 30);
    assert_eq!(reg.id_from_key("mcs:cluster:node:solo"), NodeId::from("solo"));
    assert_eq!(reg.id_from_key("elsewhere:solo"), NodeId::from("elsewhere:solo"));
    let other = reg.with_prefix("test:".to_owned());
    assert_eq!(other.self_key(), "test:solo");
    assert_eq!(other.node(), &me());
}

#[test]
fn expired_keys_are_no_live_nodes() {
    let reg = RedisNodeRegistry::new(me(), 30);
    let found = vec![
        ("mcs:cluster:node:a".to_owned(), Some("http://a".to_owned())),
        ("mcs:cluster:node:b".to_owned(), None),
        ("mcs:cluster:node:c".to_owned(), Some("http://c".to_owned())),
    ];
    let live = reg.live_nodes(&found);
    assert_eq!(
        live,
        vec![
            NodeInfo::new(NodeId::from("a"), "http://a".to_owned()),
            NodeInfo::new(NodeId::from("c"), "http://c".to_owned()),
        ]
    );
}

#[test]
fn bus_channels_carry_the_prefix() {
    let bus = RedisEventBus::new();
    assert_eq!(bus.channel("game:1:spectator"), "mcs:bus:game:1:spectator");
    assert_eq!(bus.with_prefix("t:".to_owned()).channel("x"), "t:x");
}

#[test]
fn cluster_error_renders_its_cause() {
    assert_eq!(
        ClusterError::Backend("down".to_owned()).to_string(),
        "cluster backend error: down"
    );
}
