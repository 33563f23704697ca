//! Failures of the cluster backend.

use vstd::prelude::*;

use crate::text;

verus! {

/// A failed cluster operation.
#[derive(Debug, PartialEq, Eq)]
pub enum ClusterError {
    /// The backend failed.
    Backend(String),
}

impl ClusterError {
    /// The text shown for the error.
    pub open spec fn message(self) -> Seq<char> {
        match self {
            ClusterError::Backend(s) => "cluster backend error: "@ + s@,
        }
    }

    /// Renders the error.
    pub fn to_string(&self) -> (r: String)
        ensures
            r@ == self.message(),
    {
        match self {
            ClusterError::Backend(s) => text::join2("cluster backend error: ", s.as_str()),
        }
    }
}

/// A failure of the cluster's backend tells the whole of its cause.
pub proof fn cluster_errors_tell_their_cause(s: String, shown: String)
    requires
        call_ensures(ClusterError::to_string, (&ClusterError::Backend(s),), shown),
    ensures
        text::ends_in(shown@, s@),
{
    reveal_strlit("cluster backend error: ");
    text::what_comes_last_ends_the_text("cluster backend error: "@, s@);
}

} // verus!
