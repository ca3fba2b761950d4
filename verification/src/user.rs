//! A user of the directory, and the record of a change to one.

use vstd::prelude::*;
use crate::duplicate::Duplicate;
use crate::apikey::ApiKey;
use crate::hold::Hold;
use crate::notification::Notification;
use crate::timestamp::Timestamp;
use crate::training::Training;

verus! {

#[derive(Debug, Clone)]
pub struct User {
    pub id: u32,
    pub created_at: Timestamp,
    pub updated_at: Timestamp,
    pub deleted_at: Option<Timestamp>,
    pub email: String,
    pub pending_email: Option<String>,
    /// The identifier of the card linked to this user, if one is.
    pub card_id: Option<String>,
    pub name: String,
    pub pronouns: String,
    pub role: String,
    pub user_type: String,
    pub graduation_year: Option<u32>,
    pub major: Option<String>,
    pub department: Option<String>,
    pub job_title: Option<String>,
    pub preload_trainings: Option<Vec<Training>>,
    pub preload_holds: Option<Vec<Hold>>,
    pub preload_api_keys: Option<Vec<ApiKey>>,
    pub preload_user_updates: Option<Vec<UserUpdate>>,
    pub preload_notifications: Option<Vec<Notification>>,
    pub permissions: Vec<String>,
    /// Not part of what the directory sends.
    pub endpoint_prefix: String,
}

#[derive(Debug, Clone)]
pub struct UserUpdate {
    pub id: u32,
    pub created_at: Timestamp,
    pub updated_at: Timestamp,
    pub deleted_at: Option<Timestamp>,
    pub user_id: u32,
    pub edited_by: u32,
    pub field: String,
    pub old_value: String,
    pub new_value: String,
}

impl User {
    /// A card is linked to this user.
    pub open spec fn spec_has_card(&self) -> bool {
        self.card_id is Some
    }

    /// A card is linked to this user.
    #[verifier::when_used_as_spec(spec_has_card)]
    pub fn has_card(&self) -> (linked: bool)
        ensures
            linked == self.spec_has_card(),
    {
        self.card_id.is_some()
    }
}

impl Duplicate for UserUpdate {
    open spec fn same(&self, other: &Self) -> bool {
        &&& self.id == other.id
        &&& self.created_at == other.created_at
        &&& self.updated_at == other.updated_at
        &&& self.deleted_at == other.deleted_at
        &&& self.user_id == other.user_id
        &&& self.edited_by == other.edited_by
        &&& self.field.same(&other.field)
        &&& self.old_value.same(&other.old_value)
        &&& self.new_value.same(&other.new_value)
    }

    fn duplicate(&self) -> (copy: Self) {
        UserUpdate {
            id: self.id,
            created_at: self.created_at,
            updated_at: self.updated_at,
            deleted_at: self.deleted_at,
            user_id: self.user_id,
            edited_by: self.edited_by,
            field: self.field.duplicate(),
            old_value: self.old_value.duplicate(),
            new_value: self.new_value.duplicate(),
        }
    }
}

impl Duplicate for User {
    open spec fn same(&self, other: &Self) -> bool {
        &&& self.id == other.id
        &&& self.created_at == other.created_at
        &&& self.updated_at == other.updated_at
        &&& self.deleted_at == other.deleted_at
        &&& self.graduation_year == other.graduation_year
        &&& self.email.same(&other.email)
        &&& self.pending_email.same(&other.pending_email)
        &&& self.card_id.same(&other.card_id)
        &&& self.name.same(&other.name)
        &&& self.pronouns.same(&other.pronouns)
        &&& self.role.same(&other.role)
        &&& self.user_type.same(&other.user_type)
        &&& self.major.same(&other.major)
        &&& self.department.same(&other.department)
        &&& self.job_title.same(&other.job_title)
        &&& self.preload_trainings.same(&other.preload_trainings)
        &&& self.preload_holds.same(&other.preload_holds)
        &&& self.preload_api_keys.same(&other.preload_api_keys)
        &&& self.preload_user_updates.same(&other.preload_user_updates)
        &&& self.preload_notifications.same(&other.preload_notifications)
        &&& self.permissions.same(&other.permissions)
        &&& self.endpoint_prefix.same(&other.endpoint_prefix)
    }

    fn duplicate(&self) -> (copy: Self) {
        User {
            id: self.id,
            created_at: self.created_at,
            updated_at: self.updated_at,
            deleted_at: self.deleted_at,
            email: self.email.duplicate(),
            pending_email: self.pending_email.duplicate(),
            card_id: self.card_id.duplicate(),
            name: self.name.duplicate(),
            pronouns: self.pronouns.duplicate(),
            role: self.role.duplicate(),
            user_type: self.user_type.duplicate(),
            graduation_year: self.graduation_year,
            major: self.major.duplicate(),
            department: self.department.duplicate(),
            job_title: self.job_title.duplicate(),
            preload_trainings: self.preload_trainings.duplicate(),
            preload_holds: self.preload_holds.duplicate(),
            preload_api_keys: self.preload_api_keys.duplicate(),
            preload_user_updates: self.preload_user_updates.duplicate(),
            preload_notifications: self.preload_notifications.duplicate(),
            permissions: self.permissions.duplicate(),
            endpoint_prefix: self.endpoint_prefix.duplicate(),
        }
    }
}

} // verus!
