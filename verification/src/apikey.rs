//! An API key of a user.

use vstd::prelude::*;
use crate::duplicate::Duplicate;
use crate::timestamp::Timestamp;

verus! {

#[derive(Debug, Clone)]
pub struct ApiKey {
    pub key: String,
    pub created_at: Timestamp,
    pub updated_at: Timestamp,
    pub deleted_at: Option<Timestamp>,
    pub user_id: u32,
    pub description: String,
    pub full_access: bool,
    pub permissions: Vec<String>,
}

impl Duplicate for ApiKey {
    open spec fn same(&self, other: &Self) -> bool {
        &&& self.created_at == other.created_at
        &&& self.updated_at == other.updated_at
        &&& self.deleted_at == other.deleted_at
        &&& self.user_id == other.user_id
        &&& self.full_access == other.full_access
        &&& self.key.same(&other.key)
        &&& self.description.same(&other.description)
        &&& self.permissions.same(&other.permissions)
    }

    fn duplicate(&self) -> (copy: Self) {
        ApiKey {
            key: self.key.duplicate(),
            created_at: self.created_at,
            updated_at: self.updated_at,
            deleted_at: self.deleted_at,
            user_id: self.user_id,
            description: self.description.duplicate(),
            full_access: self.full_access,
            permissions: self.permissions.duplicate(),
        }
    }
}

} // verus!
