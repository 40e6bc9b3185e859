//! Person actors: local accounts and cached remote actors.
//!
//! A person is a federated identity with a globally unique identifier URL
//! and, once created, a stable key pair; remote records are refreshed on a
//! schedule but the identifier never changes. Times are seconds since the
//! epoch.

use vstd::prelude::*;
use crate::ids::ObjectId;

verus! {

/// A person actor as the storage collaborator holds it.
pub struct Person {
    pub id: i32,
    pub name: String,
    pub preferred_username: Option<String>,
    pub avatar: Option<String>,
    pub banned: bool,
    pub published: i64,
    pub updated: Option<i64>,
    pub actor_id: ObjectId,
    pub bio: Option<String>,
    pub local: bool,
    pub private_key: Option<String>,
    pub public_key: Option<String>,
    pub last_refreshed_at: i64,
    pub banner: Option<String>,
    pub deleted: bool,
    pub inbox_url: String,
    pub shared_inbox_url: Option<String>,
}

/// A person without the sensitive fields.
pub struct PersonSafe {
    pub id: i32,
    pub name: String,
    pub preferred_username: Option<String>,
    pub avatar: Option<String>,
    pub banned: bool,
    pub published: i64,
    pub updated: Option<i64>,
    pub actor_id: ObjectId,
    pub bio: Option<String>,
    pub local: bool,
    pub banner: Option<String>,
    pub deleted: bool,
    pub inbox_url: String,
    pub shared_inbox_url: Option<String>,
}

/// The fields a person row is created or updated from.
pub struct PersonForm {
    pub name: String,
    pub preferred_username: Option<Option<String>>,
    pub avatar: Option<Option<String>>,
    pub banned: Option<bool>,
    pub published: Option<i64>,
    pub updated: Option<i64>,
    pub actor_id: Option<ObjectId>,
    pub bio: Option<Option<String>>,
    pub local: Option<bool>,
    pub private_key: Option<Option<String>>,
    pub public_key: Option<Option<String>>,
    pub last_refreshed_at: Option<i64>,
    pub banner: Option<Option<String>>,
    pub deleted: Option<bool>,
    pub inbox_url: Option<String>,
    pub shared_inbox_url: Option<Option<String>>,
}

impl Person {
    /// The sensitive fields stripped away.
    pub fn to_safe(&self) -> (r: PersonSafe)
        ensures
            r.id == self.id,
            r.name@ == self.name@,
            r.banned == self.banned,
            r.actor_id.full@ == self.actor_id.full@,
            r.local == self.local,
            r.deleted == self.deleted,
    {
        PersonSafe {
            id: self.id,
            name: self.name.clone(),
            preferred_username: clone_opt_string(&self.preferred_username),
            avatar: clone_opt_string(&self.avatar),
            banned: self.banned,
            published: self.published,
            updated: self.updated,
            actor_id: self.actor_id.clone(),
            bio: clone_opt_string(&self.bio),
            local: self.local,
            banner: clone_opt_string(&self.banner),
            deleted: self.deleted,
            inbox_url: self.inbox_url.clone(),
            shared_inbox_url: clone_opt_string(&self.shared_inbox_url),
        }
    }
}

/// A copy of an optional string, equal to what it copies.
pub fn clone_opt_string(s: &Option<String>) -> (r: Option<String>)
    ensures
        r == *s,
{
    match s {
        Some(x) => Some(x.clone()),
        None => None,
    }
}

} // verus!
