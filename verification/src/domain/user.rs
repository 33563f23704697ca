//! Registered users.

use vstd::prelude::*;

use crate::domain::evm_address::EvmAddress;
use crate::domain::ids;
use crate::domain::ids::UserId;
use crate::text;
use crate::time::Timestamp;

verus! {

/// A registered user, authenticated by an Ethereum address.
#[derive(Debug, PartialEq, Eq)]
pub struct User {
    /// Stable identifier of the user.
    pub id: UserId,
    /// The address that authenticated the user.
    pub address: EvmAddress,
    /// A display name, if one is set.
    pub username: Option<String>,
    /// When the account was created.
    pub created_at: Timestamp,
}

impl User {
    /// Creates a user under a fresh random identifier.
    #[must_use]
    pub fn new(address: EvmAddress, username: Option<String>, created_at: Timestamp) -> (r: Self)
        ensures
            ids::is_random(r.id.0),
            r == (User { id: r.id, address, username, created_at }),
    {
        User { id: UserId::new(), address, username, created_at }
    }
}

impl Clone for User {
    fn clone(&self) -> (r: Self)
        ensures
            r == *self,
    {
        User {
            id: self.id,
            address: self.address.clone(),
            username: text::clone_opt(&self.username),
            created_at: self.created_at,
        }
    }
}

} // verus!
