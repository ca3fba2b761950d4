//! A notification for a user.

use vstd::prelude::*;
use crate::duplicate::Duplicate;
use crate::timestamp::Timestamp;

verus! {

#[derive(Debug, Clone)]
pub struct Notification {
    pub id: u32,
    pub created_at: Timestamp,
    pub updated_at: Timestamp,
    pub deleted_at: Option<Timestamp>,
    pub user_id: u32,
    pub title: String,
    pub message: String,
    pub link: String,
    pub group: String,
    pub added_by: u32,
    /// Not part of what the directory sends.
    pub endpoint_prefix: String,
}

impl Duplicate for Notification {
    open spec fn same(&self, other: &Self) -> bool {
        &&& self.id == other.id
        &&& self.created_at == other.created_at
        &&& self.updated_at == other.updated_at
        &&& self.deleted_at == other.deleted_at
        &&& self.user_id == other.user_id
        &&& self.added_by == other.added_by
        &&& self.title.same(&other.title)
        &&& self.message.same(&other.message)
        &&& self.link.same(&other.link)
        &&& self.group.same(&other.group)
        &&& self.endpoint_prefix.same(&other.endpoint_prefix)
    }

    fn duplicate(&self) -> (copy: Self) {
        Notification {
            id: self.id,
            created_at: self.created_at,
            updated_at: self.updated_at,
            deleted_at: self.deleted_at,
            user_id: self.user_id,
            title: self.title.duplicate(),
            message: self.message.duplicate(),
            link: self.link.duplicate(),
            group: self.group.duplicate(),
            added_by: self.added_by,
            endpoint_prefix: self.endpoint_prefix.duplicate(),
        }
    }
}

} // verus!
