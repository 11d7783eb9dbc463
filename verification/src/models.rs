//! What access control reads of the stored records.
//!
//! Both records are snapshots that the caller has fetched. Nothing here looks
//! at storage again.

use vstd::prelude::*;
use crate::permissions::{granted_by, stored_names, Permission};

verus! {

/// The user who makes a request.
#[derive(Debug, PartialEq, Eq)]
pub struct User {
    /// The names of the permissions that the user holds on the whole server,
    /// as they are stored.
    pub permissions: Vec<String>,
}

impl User {
    /// The permissions that the user holds on the whole server.
    pub open spec fn capabilities(&self) -> Set<Permission> {
        granted_by(stored_names(self.permissions@))
    }
}

/// The tie between a user and a group that the user belongs to.
#[derive(Debug, PartialEq, Eq)]
pub struct Membership {
    /// The names of the permissions that the user holds within the group, as
    /// they are stored.
    pub permissions: Vec<String>,
}

impl Membership {
    /// The permissions that the user holds within the group.
    pub open spec fn capabilities(&self) -> Set<Permission> {
        granted_by(stored_names(self.permissions@))
    }
}

/// The permissions within the group of a user who may or may not belong to it.
pub open spec fn group_capabilities(membership: Option<Membership>) -> Option<Set<Permission>> {
    match membership {
        Some(m) => Some(m.capabilities()),
        None => None,
    }
}

} // verus!
