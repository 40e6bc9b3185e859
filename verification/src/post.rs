//! Posts and their wire shape.
//!
//! A post travels between servers as a page object: a loosely typed
//! document whose fields this model keeps as plain values. Translation
//! between the two shapes, with its domain and ban checks, is the object
//! translator half of the inbox pipeline.

use vstd::prelude::*;
use crate::ids::ObjectId;

verus! {

/// A post as the storage collaborator holds it.
pub struct Post {
    pub id: i32,
    pub name: String,
    pub url: Option<String>,
    pub body: Option<String>,
    pub creator_id: i32,
    pub community_id: i32,
    pub removed: bool,
    pub locked: bool,
    pub published: i64,
    pub updated: Option<i64>,
    pub deleted: bool,
    pub nsfw: bool,
    pub stickied: bool,
    pub embed_title: Option<String>,
    pub embed_description: Option<String>,
    pub embed_html: Option<String>,
    pub thumbnail_url: Option<String>,
    pub ap_id: ObjectId,
    pub local: bool,
}

/// The fields a post row is created or updated from.
pub struct PostForm {
    pub name: String,
    pub url: Option<String>,
    pub body: Option<String>,
    pub creator_id: i32,
    pub community_id: i32,
    pub removed: Option<bool>,
    pub locked: Option<bool>,
    pub published: Option<i64>,
    pub updated: Option<i64>,
    pub deleted: Option<bool>,
    pub nsfw: bool,
    pub stickied: Option<bool>,
    pub embed_title: Option<String>,
    pub embed_description: Option<String>,
    pub embed_html: Option<String>,
    pub thumbnail_url: Option<String>,
    pub ap_id: Option<ObjectId>,
    pub local: bool,
}

/// A person's vote on a post; the score is `1` for an upvote and `-1`
/// for a downvote.
#[derive(Clone, Copy, PartialEq, Eq, Structural)]
pub struct PostLike {
    pub post_id: i32,
    pub person_id: i32,
    pub score: i16,
}

/// The fields a vote is created from.
#[derive(Clone, Copy, PartialEq, Eq, Structural)]
pub struct PostLikeForm {
    pub post_id: i32,
    pub person_id: i32,
    pub score: i16,
}

/// The page object a post becomes on the wire, kept as plain values.
pub struct PageObject {
    /// The page's own identifier URL.
    pub ap_id: ObjectId,
    /// The creator's actor URL.
    pub attributed_to: ObjectId,
    /// The addressing list; holds the community and, for public posts,
    /// the public collection marker.
    pub to: Vec<ObjectId>,
    /// The title; a page without one cannot be translated.
    pub name: Option<String>,
    /// The markdown source of the body.
    pub body: Option<String>,
    /// The shared link.
    pub url: Option<String>,
    /// The attached image URL.
    pub image_url: Option<String>,
    pub published: Option<i64>,
    pub updated: Option<i64>,
    /// False when the post is locked.
    pub comments_enabled: Option<bool>,
    /// True when the post is marked not safe for work.
    pub sensitive: Option<bool>,
    pub stickied: Option<bool>,
}

/// What a deleted object leaves behind on the wire.
pub struct TombstoneData {
    pub ap_id: ObjectId,
    pub updated: Option<i64>,
}

impl Post {
    /// A tombstone for this post; only a deleted post has one.
    pub fn to_tombstone(&self) -> (r: Option<TombstoneData>)
        ensures
            (r is Some) == self.deleted,
            r is Some ==> r.unwrap().ap_id.full@ == self.ap_id.full@ && r.unwrap().updated
                == self.updated,
    {
        if self.deleted {
            Some(TombstoneData { ap_id: self.ap_id.clone(), updated: self.updated })
        } else {
            None
        }
    }
}

} // verus!

verus! {

/// The page a post becomes when served to other nodes: addressed to the
/// community and to the public collection, attributed to its creator,
/// with the title doubled into the summary-compatible name field by the
/// caller if it needs to.
pub fn post_to_page(post: &Post, creator_actor: &ObjectId, community_actor: &ObjectId) -> (pg:
    PageObject)
    ensures
        pg.ap_id == post.ap_id,
        pg.attributed_to == *creator_actor,
        pg.to@.len() == 2,
        pg.to@[0] == *community_actor,
        pg.to@[1].full@ == crate::inbox::public_marker(),
        pg.name is Some,
        pg.name.unwrap()@ == post.name@,
        pg.body == post.body,
        pg.url == post.url,
        pg.image_url == post.thumbnail_url,
        pg.published == Some(post.published),
        pg.updated == post.updated,
        pg.comments_enabled == Some(!post.locked),
        pg.sensitive == Some(post.nsfw),
        pg.stickied == Some(post.stickied),
{
    let mut to: Vec<ObjectId> = Vec::new();
    to.push(community_actor.clone());
    to.push(
        ObjectId {
            full: String::from_str("https://www.w3.org/ns/activitystreams#Public"),
            domain: String::from_str("www.w3.org"),
        },
    );
    PageObject {
        ap_id: post.ap_id.clone(),
        attributed_to: creator_actor.clone(),
        to,
        name: Some(post.name.clone()),
        body: crate::person::clone_opt_string(&post.body),
        url: crate::person::clone_opt_string(&post.url),
        image_url: crate::person::clone_opt_string(&post.thumbnail_url),
        published: Some(post.published),
        updated: post.updated,
        comments_enabled: Some(!post.locked),
        sensitive: Some(post.nsfw),
        stickied: Some(post.stickied),
    }
}

} // verus!
