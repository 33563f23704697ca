//! Nodes of a cluster.

use vstd::prelude::*;

verus! {

/// Identifies a server instance. Any text that is unique and stable for the life
/// of a process will do.
#[derive(Debug, PartialEq, Eq, Hash, PartialOrd, Ord)]
pub struct NodeId(pub String);

impl NodeId {
    /// The identifier as text.
    #[must_use]
    pub fn as_str(&self) -> (r: &str)
        ensures
            r@ == self.0@,
    {
        self.0.as_str()
    }

    /// Renders the identifier.
    pub fn to_string(&self) -> (r: String)
        ensures
            r@ == self.0@,
    {
        self.0.clone()
    }
}

impl Clone for NodeId {
    fn clone(&self) -> (r: Self)
        ensures
            r == *self,
    {
        NodeId(self.0.clone())
    }
}

impl From<String> for NodeId {
    fn from(value: String) -> (r: Self)
        ensures
            r == NodeId(value),
    {
        NodeId(value)
    }
}

impl vstd::std_specs::convert::FromSpecImpl<String> for NodeId {
    open spec fn obeys_from_spec() -> bool {
        true
    }

    open spec fn from_spec(v: String) -> Self {
        NodeId(v)
    }
}

impl From<&str> for NodeId {
    fn from(value: &str) -> (r: Self)
        ensures
            r.0@ == value@,
    {
        NodeId(value.to_owned())
    }
}

impl vstd::std_specs::convert::FromSpecImpl<&str> for NodeId {
    open spec fn obeys_from_spec() -> bool {
        false
    }

    open spec fn from_spec(v: &str) -> Self {
        arbitrary()
    }
}

/// A live node with the address at which its peers reach it.
#[derive(Debug, PartialEq, Eq, Hash)]
pub struct NodeInfo {
    /// Stable identity of the node.
    pub id: NodeId,
    /// How peers reach the node, such as `http://host:port`.
    pub address: String,
}

impl NodeInfo {
    /// Builds a node from its identity and its address.
    pub fn new(id: NodeId, address: String) -> (r: Self)
        ensures
            r == (NodeInfo { id, address }),
    {
        NodeInfo { id, address }
    }
}

impl Clone for NodeInfo {
    fn clone(&self) -> (r: Self)
        ensures
            r == *self,
    {
        NodeInfo { id: self.id.clone(), address: self.address.clone() }
    }
}

} // verus!
