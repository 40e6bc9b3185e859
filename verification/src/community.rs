//! Community actors and the relations that hang off them: moderators,
//! bans and followers.

use vstd::prelude::*;
use crate::ids::ObjectId;
use crate::person::clone_opt_string;

verus! {

/// A community actor as the storage collaborator holds it.
pub struct Community {
    pub id: i32,
    pub name: String,
    pub title: String,
    pub description: Option<String>,
    pub creator_id: i32,
    pub removed: bool,
    pub published: i64,
    pub updated: Option<i64>,
    pub deleted: bool,
    pub nsfw: bool,
    pub actor_id: ObjectId,
    pub local: bool,
    pub private_key: Option<String>,
    pub public_key: Option<String>,
    pub last_refreshed_at: i64,
    pub icon: Option<String>,
    pub banner: Option<String>,
    pub followers_url: String,
    pub inbox_url: String,
    pub shared_inbox_url: Option<String>,
}

impl Clone for Community {
    fn clone(&self) -> (r: Self)
        ensures
            r == *self,
    {
        Community {
            id: self.id,
            name: self.name.clone(),
            title: self.title.clone(),
            description: clone_opt_string(&self.description),
            creator_id: self.creator_id,
            removed: self.removed,
            published: self.published,
            updated: self.updated,
            deleted: self.deleted,
            nsfw: self.nsfw,
            actor_id: self.actor_id.clone(),
            local: self.local,
            private_key: clone_opt_string(&self.private_key),
            public_key: clone_opt_string(&self.public_key),
            last_refreshed_at: self.last_refreshed_at,
            icon: clone_opt_string(&self.icon),
            banner: clone_opt_string(&self.banner),
            followers_url: self.followers_url.clone(),
            inbox_url: self.inbox_url.clone(),
            shared_inbox_url: clone_opt_string(&self.shared_inbox_url),
        }
    }
}

/// A community without the sensitive fields.
pub struct CommunitySafe {
    pub id: i32,
    pub name: String,
    pub title: String,
    pub description: Option<String>,
    pub creator_id: i32,
    pub removed: bool,
    pub published: i64,
    pub updated: Option<i64>,
    pub deleted: bool,
    pub nsfw: bool,
    pub actor_id: ObjectId,
    pub local: bool,
    pub icon: Option<String>,
    pub banner: Option<String>,
}

/// The fields a community row is created or updated from.
pub struct CommunityForm {
    pub name: String,
    pub title: String,
    pub description: Option<String>,
    pub creator_id: i32,
    pub removed: Option<bool>,
    pub published: Option<i64>,
    pub updated: Option<i64>,
    pub deleted: Option<bool>,
    pub nsfw: bool,
    pub actor_id: Option<ObjectId>,
    pub local: bool,
    pub private_key: Option<String>,
    pub public_key: Option<String>,
    pub last_refreshed_at: Option<i64>,
    pub icon: Option<Option<String>>,
    pub banner: Option<Option<String>>,
    pub followers_url: Option<String>,
    pub inbox_url: Option<String>,
    pub shared_inbox_url: Option<Option<String>>,
}

/// A moderator seat in a community.
#[derive(Clone, Copy, PartialEq, Eq, Structural)]
pub struct CommunityModerator {
    pub community_id: i32,
    pub person_id: i32,
}

/// The fields a moderator seat is created from.
#[derive(Clone, Copy, PartialEq, Eq, Structural)]
pub struct CommunityModeratorForm {
    pub community_id: i32,
    pub person_id: i32,
}

/// A ban of a person from one community.
#[derive(Clone, Copy, PartialEq, Eq, Structural)]
pub struct CommunityPersonBan {
    pub community_id: i32,
    pub person_id: i32,
}

/// The fields a community ban is created from.
#[derive(Clone, Copy, PartialEq, Eq, Structural)]
pub struct CommunityPersonBanForm {
    pub community_id: i32,
    pub person_id: i32,
}

/// The subscription edge between a person and a community. `pending` is
/// true only while a local person's follow of a remote community awaits
/// the remote accept.
#[derive(Clone, Copy, PartialEq, Eq, Structural)]
pub struct CommunityFollower {
    pub community_id: i32,
    pub person_id: i32,
    pub pending: bool,
}

/// The fields a follower relation is created from.
#[derive(Clone, Copy, PartialEq, Eq, Structural)]
pub struct CommunityFollowerForm {
    pub community_id: i32,
    pub person_id: i32,
    pub pending: bool,
}

} // verus!
