//! A training that a user has completed.

use vstd::prelude::*;
use crate::duplicate::Duplicate;
use crate::timestamp::Timestamp;

verus! {

#[derive(Debug, Clone)]
pub struct Training {
    pub id: u32,
    pub created_at: Timestamp,
    pub updated_at: Timestamp,
    pub deleted_at: Option<Timestamp>,
    pub name: String,
    pub user_id: u32,
    pub added_by: u32,
    pub removed_by: Option<u32>,
    pub endpoint_prefix: String,
}

impl Duplicate for Training {
    open spec fn same(&self, other: &Self) -> bool {
        &&& self.id == other.id
        &&& self.created_at == other.created_at
        &&& self.updated_at == other.updated_at
        &&& self.deleted_at == other.deleted_at
        &&& self.user_id == other.user_id
        &&& self.added_by == other.added_by
        &&& self.removed_by == other.removed_by
        &&& self.name.same(&other.name)
        &&& self.endpoint_prefix.same(&other.endpoint_prefix)
    }

    fn duplicate(&self) -> (copy: Self) {
        Training {
            id: self.id,
            created_at: self.created_at,
            updated_at: self.updated_at,
            deleted_at: self.deleted_at,
            name: self.name.duplicate(),
            user_id: self.user_id,
            added_by: self.added_by,
            removed_by: self.removed_by,
            endpoint_prefix: self.endpoint_prefix.duplicate(),
        }
    }
}

} // verus!
