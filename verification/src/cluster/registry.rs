//! The registry of a single-node deployment.

use vstd::prelude::*;

use crate::cluster::error::ClusterError;
use crate::cluster::types::NodeInfo;

verus! {

/// A registry that knows one node, which is always live and so owns every game.
#[derive(Debug)]
pub struct LocalRegistry {
    node: NodeInfo,
}

impl LocalRegistry {
    /// The one node.
    pub closed spec fn view(self) -> NodeInfo {
        self.node
    }

    /// Builds a registry of one node.
    #[must_use]
    pub fn new(node: NodeInfo) -> (r: Self)
        ensures
            r@ == node,
    {
        LocalRegistry { node }
    }

    /// The one node.
    #[must_use]
    pub fn node(&self) -> (r: &NodeInfo)
        ensures
            *r == self@,
    {
        &self.node
    }

    /// Records the node as live, which it always is.
    pub fn register(&self) -> (r: Result<(), ClusterError>)
        ensures
            r is Ok,
    {
        Ok(())
    }

    /// Renews the node's liveness, which never lapses.
    pub fn heartbeat(&self) -> (r: Result<(), ClusterError>)
        ensures
            r is Ok,
    {
        Ok(())
    }

    /// Takes the node out of the registry, which keeps nothing to take it from.
    pub fn leave(&self) -> (r: Result<(), ClusterError>)
        ensures
            r is Ok,
    {
        Ok(())
    }

    /// The live nodes: the one node, always.
    pub fn live_nodes(&self) -> (r: Result<Vec<NodeInfo>, ClusterError>)
        ensures
            r is Ok && r->Ok_0@ == seq![self@],
    {
        let mut nodes: Vec<NodeInfo> = Vec::new();
        nodes.push(self.node.clone());
        assert(nodes@ =~= seq![self@]);
        Ok(nodes)
    }
}

impl Clone for LocalRegistry {
    fn clone(&self) -> (r: Self)
        ensures
            r@ == self@,
    {
        LocalRegistry { node: self.node.clone() }
    }
}

/// A single node is always the one live node, whatever it reports.
pub proof fn a_single_node_is_always_live(
    node: NodeInfo,
    r: LocalRegistry,
    live: Result<Vec<NodeInfo>, ClusterError>,
    registered: Result<(), ClusterError>,
    renewed: Result<(), ClusterError>,
    left: Result<(), ClusterError>,
    known: &NodeInfo,
)
    requires
        call_ensures(LocalRegistry::new, (node,), r),
        call_ensures(LocalRegistry::live_nodes, (&r,), live),
        call_ensures(LocalRegistry::register, (&r,), registered),
        call_ensures(LocalRegistry::heartbeat, (&r,), renewed),
        call_ensures(LocalRegistry::leave, (&r,), left),
        call_ensures(LocalRegistry::node, (&r,), known),
    ensures
        registered is Ok && renewed is Ok && left is Ok,
        *known == node,
        live is Ok && live->Ok_0@.len() == 1 && live->Ok_0@[0] == node,
{
}

} // verus!
