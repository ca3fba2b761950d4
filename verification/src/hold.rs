//! A hold placed on a user.

use vstd::prelude::*;
use crate::duplicate::Duplicate;
use crate::timestamp::Timestamp;

verus! {

#[derive(Debug, Clone)]
pub struct Hold {
    pub id: u32,
    pub created_at: Timestamp,
    pub updated_at: Timestamp,
    pub deleted_at: Option<Timestamp>,
    pub user_id: u32,
    pub name: String,
    pub reason: String,
    pub start: Option<Timestamp>,
    pub end: Option<Timestamp>,
    pub resolution_link: Option<String>,
    pub added_by: u32,
    pub removed_by: Option<u32>,
    pub priority: u32,
}

impl Duplicate for Hold {
    open spec fn same(&self, other: &Self) -> bool {
        &&& self.id == other.id
        &&& self.created_at == other.created_at
        &&& self.updated_at == other.updated_at
        &&& self.deleted_at == other.deleted_at
        &&& self.user_id == other.user_id
        &&& self.start == other.start
        &&& self.end == other.end
        &&& self.added_by == other.added_by
        &&& self.removed_by == other.removed_by
        &&& self.priority == other.priority
        &&& self.name.same(&other.name)
        &&& self.reason.same(&other.reason)
        &&& self.resolution_link.same(&other.resolution_link)
    }

    fn duplicate(&self) -> (copy: Self) {
        Hold {
            id: self.id,
            created_at: self.created_at,
            updated_at: self.updated_at,
            deleted_at: self.deleted_at,
            user_id: self.user_id,
            name: self.name.duplicate(),
            reason: self.reason.duplicate(),
            start: self.start,
            end: self.end,
            resolution_link: self.resolution_link.duplicate(),
            added_by: self.added_by,
            removed_by: self.removed_by,
            priority: self.priority,
        }
    }
}

} // verus!
