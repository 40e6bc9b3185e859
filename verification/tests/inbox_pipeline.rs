use lemmy_core::community::Community;
use lemmy_core::ids::ObjectId;
use lemmy_core::inbox::{
    community_inbox, http_status, ActivityObject, CommunityValidTypes, DeliveryRequest, EmbedMeta,
    Envelope, InboxError, InboxOutcome, InnerActivity, OutboundAction,
};
use lemmy_core::post::PageObject;
use lemmy_core::person::Person;
use lemmy_core::store::Store;

fn oid(full: &str, domain: &str) -> ObjectId {
    ObjectId { full: full.to_string(), domain: domain.to_string() }
}

fn person(id: i32, full: &str, domain: &str, banned: bool) -> Person {
    Person {
        id,
        name: "alice".to_string(),
        preferred_username: None,
        avatar: None,
        banned,
        published: 0,
        updated: None,
        actor_id: oid(full, domain),
        bio: None,
        local: false,
        private_key: None,
        public_key: Some("key".to_string()),
        last_refreshed_at: 0,
        banner: None,
        deleted: false,
        inbox_url: format!("{}/inbox", full),
        shared_inbox_url: None,
    }
}

fn community(id: i32, name: &str, full: &str, domain: &str) -> Community {
    Community {
        id,
        name: name.to_string(),
        title: name.to_string(),
        description: None,
        creator_id: 1,
        removed: false,
        published: 0,
        updated: None,
        deleted: false,
        nsfw: false,
        actor_id: oid(full, domain),
        local: true,
        private_key: None,
        public_key: Some("key".to_string()),
        last_refreshed_at: 0,
        icon: None,
        banner: None,
        followers_url: format!("{}/followers", full),
        inbox_url: format!("{}/inbox", full),
        shared_inbox_url: None,
    }
}

const PUBLIC: &str = "https://www.w3.org/ns/activitystreams#Public";
const ALICE: &str = "https://b.example/u/alice";
const TECH: &str = "https://a.example/c/tech";

fn base_store() -> Store {
    let mut s = Store::new();
    s.persons.push(person(1, ALICE, "b.example", false));
    s.next_person_id = 2;
    s.communities.push(community(10, "tech", TECH, "a.example"));
    s.next_community_id = 11;
    s
}

fn follow_request(activity_id: &str) -> DeliveryRequest {
    DeliveryRequest {
        envelope: Envelope {
            id: oid(activity_id, "b.example"),
            actor: oid(ALICE, "b.example"),
            kind: CommunityValidTypes::Follow,
            to: vec![oid(TECH, "a.example")],
            cc: Vec::new(),
            object: ActivityObject::Reference(oid(TECH, "a.example")),
        },
        path_community_name: "tech".to_string(),
        local_domain: "a.example".to_string(),
        expected_domain: "b.example".to_string(),
        signature_valid: true,
        now: 1000,
        embed: EmbedMeta { title: None, description: None, html: None, thumbnail: None },
        denylist: Vec::new(),
        replacement: "*removed*".to_string(),
    }
}

fn page(ap_full: &str, ap_domain: &str, name: &str, body: Option<&str>) -> PageObject {
    PageObject {
        ap_id: oid(ap_full, ap_domain),
        attributed_to: oid(ALICE, "b.example"),
        to: vec![oid(TECH, "a.example"), oid(PUBLIC, "www.w3.org")],
        name: Some(name.to_string()),
        body: body.map(|b| b.to_string()),
        url: None,
        image_url: None,
        published: Some(900),
        updated: None,
        comments_enabled: Some(true),
        sensitive: Some(false),
        stickied: None,
    }
}

fn create_request(activity_id: &str, pg: PageObject) -> DeliveryRequest {
    let mut req = follow_request(activity_id);
    req.envelope.kind = CommunityValidTypes::Create;
    req.envelope.to.push(oid(PUBLIC, "www.w3.org"));
    req.envelope.object = ActivityObject::Page(pg);
    req
}

#[test]
fn follow_creates_relation_and_accept() {
    let mut s = base_store();
    let req = follow_request("https://b.example/activities/follow/1");
    let (outcome, actions) = community_inbox(&mut s, &req);
    assert_eq!(outcome, InboxOutcome::Accepted { announced: false });
    assert_eq!(http_status(&outcome), 200);
    assert_eq!(s.followers.len(), 1);
    assert_eq!(s.followers[0].community_id, 10);
    assert_eq!(s.followers[0].person_id, 1);
    assert!(!s.followers[0].pending);
    assert_eq!(actions.len(), 1);
    match &actions[0] {
        OutboundAction::SendAccept { inbox, follow_id } => {
            assert_eq!(inbox, "https://b.example/u/alice/inbox");
            assert_eq!(follow_id.full, "https://b.example/activities/follow/1");
        }
        _ => panic!("expected an accept"),
    }
    assert_eq!(s.dedup.len(), 1);
    assert!(!s.dedup[0].forwarded);
}

#[test]
fn duplicate_follow_is_absorbed() {
    let mut s = base_store();
    let req = follow_request("https://b.example/activities/follow/1");
    let (first, _) = community_inbox(&mut s, &req);
    assert_eq!(first, InboxOutcome::Accepted { announced: false });
    let followers_before = s.followers.len();
    let dedup_before = s.dedup.len();
    let (second, actions) = community_inbox(&mut s, &req);
    assert_eq!(second, InboxOutcome::AlreadySeen);
    assert_eq!(http_status(&second), 200);
    assert_eq!(s.followers.len(), followers_before);
    assert_eq!(s.dedup.len(), dedup_before);
    assert!(actions.is_empty());
}

#[test]
fn follow_then_undo_leaves_no_relation() {
    let mut s = base_store();
    let (f, _) = community_inbox(&mut s, &follow_request("https://b.example/activities/follow/1"));
    assert_eq!(f, InboxOutcome::Accepted { announced: false });
    let mut undo = follow_request("https://b.example/activities/undo/1");
    undo.envelope.kind = CommunityValidTypes::Undo;
    undo.envelope.object = ActivityObject::Activity(InnerActivity {
        id: oid("https://b.example/activities/follow/1", "b.example"),
        actor: oid(ALICE, "b.example"),
        kind: CommunityValidTypes::Follow,
        object: oid(TECH, "a.example"),
    });
    let (u, actions) = community_inbox(&mut s, &undo);
    assert_eq!(u, InboxOutcome::Accepted { announced: false });
    assert!(actions.is_empty());
    assert!(s.followers.is_empty());
}

#[test]
fn second_follow_under_new_id_keeps_one_relation() {
    let mut s = base_store();
    community_inbox(&mut s, &follow_request("https://b.example/activities/follow/1"));
    let (second, _) = community_inbox(&mut s, &follow_request("https://b.example/activities/follow/2"));
    assert_eq!(second, InboxOutcome::Accepted { announced: false });
    assert_eq!(s.followers.len(), 1);
}

#[test]
fn invalid_signature_rejected_before_any_mutation() {
    let mut s = base_store();
    let mut req = follow_request("https://b.example/activities/follow/1");
    req.signature_valid = false;
    let (outcome, actions) = community_inbox(&mut s, &req);
    assert_eq!(outcome, InboxOutcome::Rejected(InboxError::SignatureInvalid));
    assert_eq!(http_status(&outcome), 400);
    assert!(actions.is_empty());
    assert!(s.dedup.is_empty());
    assert!(s.followers.is_empty());
}

#[test]
fn unknown_actor_is_unresolvable() {
    let mut s = base_store();
    let mut req = follow_request("https://c.example/activities/follow/1");
    req.envelope.actor = oid("https://c.example/u/mallory", "c.example");
    req.envelope.id = oid("https://c.example/activities/follow/1", "c.example");
    let (outcome, _) = community_inbox(&mut s, &req);
    assert_eq!(outcome, InboxOutcome::Rejected(InboxError::ActorUnresolvable));
    assert!(s.dedup.is_empty());
}

#[test]
fn activity_not_addressed_to_community_is_refused() {
    let mut s = base_store();
    let mut req = follow_request("https://b.example/activities/follow/1");
    req.envelope.to = vec![oid("https://a.example/c/other", "a.example")];
    let (outcome, _) = community_inbox(&mut s, &req);
    assert_eq!(outcome, InboxOutcome::Rejected(InboxError::NotAddressedHere));
    assert_eq!(http_status(&outcome), 400);
    assert!(s.dedup.is_empty());
}

#[test]
fn locally_minted_id_is_foreign_forgery() {
    let mut s = base_store();
    let mut req = follow_request("https://a.example/activities/follow/1");
    // The sender claims an id under this node's own domain.
    req.envelope.id = oid("https://a.example/activities/follow/1", "a.example");
    req.envelope.actor = oid("https://a.example/u/alice", "a.example");
    s.persons[0].actor_id = oid("https://a.example/u/alice", "a.example");
    let (outcome, _) = community_inbox(&mut s, &req);
    assert_eq!(outcome, InboxOutcome::Rejected(InboxError::ForeignActivity));
    assert!(s.dedup.is_empty());
}

#[test]
fn id_domain_must_match_actor_domain() {
    let mut s = base_store();
    let mut req = follow_request("https://c.example/activities/follow/1");
    req.envelope.id = oid("https://c.example/activities/follow/1", "c.example");
    let (outcome, _) = community_inbox(&mut s, &req);
    assert_eq!(outcome, InboxOutcome::Rejected(InboxError::DomainMismatch));
    assert!(s.dedup.is_empty());
}

#[test]
fn create_with_foreign_object_domain_is_rejected() {
    let mut s = base_store();
    let pg = page("https://c.example/post/9", "c.example", "A test post", None);
    let mut req = create_request("https://b.example/activities/create/1", pg);
    req.expected_domain = "a.example".to_string();
    let (outcome, actions) = community_inbox(&mut s, &req);
    assert_eq!(outcome, InboxOutcome::Rejected(InboxError::DomainMismatch));
    assert_eq!(http_status(&outcome), 400);
    assert!(s.posts.is_empty());
    assert!(actions.is_empty());
}

#[test]
fn create_makes_post_and_announces() {
    let mut s = base_store();
    let pg = page("https://b.example/post/9", "b.example", "A test post", Some("hello"));
    let req = create_request("https://b.example/activities/create/1", pg);
    let (outcome, actions) = community_inbox(&mut s, &req);
    assert_eq!(outcome, InboxOutcome::Accepted { announced: true });
    assert_eq!(s.posts.len(), 1);
    assert_eq!(s.posts[0].name, "A test post");
    assert_eq!(s.posts[0].body.as_deref(), Some("hello"));
    assert_eq!(s.posts[0].creator_id, 1);
    assert_eq!(s.posts[0].community_id, 10);
    assert_eq!(s.posts[0].ap_id.full, "https://b.example/post/9");
    assert!(!s.posts[0].local);
    assert_eq!(actions.len(), 1);
    match &actions[0] {
        OutboundAction::Announce { community_id, activity_id } => {
            assert_eq!(*community_id, 10);
            assert_eq!(activity_id.full, "https://b.example/activities/create/1");
        }
        _ => panic!("expected an announce"),
    }
    assert!(s.dedup[0].forwarded);
}

#[test]
fn replayed_create_mutates_once_and_announces_once() {
    let mut s = base_store();
    let pg = page("https://b.example/post/9", "b.example", "A test post", None);
    let req = create_request("https://b.example/activities/create/1", pg);
    let (first, first_actions) = community_inbox(&mut s, &req);
    assert_eq!(first, InboxOutcome::Accepted { announced: true });
    assert_eq!(first_actions.len(), 1);
    let (second, second_actions) = community_inbox(&mut s, &req);
    assert_eq!(second, InboxOutcome::AlreadySeen);
    assert!(second_actions.is_empty());
    assert_eq!(s.posts.len(), 1);
    assert_eq!(s.dedup.len(), 1);
}

#[test]
fn banned_sender_create_is_acknowledged_without_effect() {
    let mut s = base_store();
    s.persons[0].banned = true;
    let pg = page("https://b.example/post/9", "b.example", "A test post", None);
    let req = create_request("https://b.example/activities/create/1", pg);
    let (outcome, actions) = community_inbox(&mut s, &req);
    assert_eq!(outcome, InboxOutcome::Banned);
    assert_eq!(http_status(&outcome), 200);
    assert!(s.posts.is_empty());
    assert!(actions.is_empty());
}

#[test]
fn community_banned_sender_like_changes_nothing() {
    let mut s = base_store();
    s.community_bans.push(lemmy_core::community::CommunityPersonBan {
        community_id: 10,
        person_id: 1,
    });
    let mut req = follow_request("https://b.example/activities/like/1");
    req.envelope.kind = CommunityValidTypes::Like;
    req.envelope.object =
        ActivityObject::Reference(oid("https://b.example/post/9", "b.example"));
    let (outcome, actions) = community_inbox(&mut s, &req);
    assert_eq!(outcome, InboxOutcome::Banned);
    assert_eq!(http_status(&outcome), 200);
    assert!(s.post_likes.is_empty());
    assert!(actions.is_empty());
}

#[test]
fn banned_sender_delete_changes_nothing() {
    let mut s = base_store();
    let pg = page("https://b.example/post/9", "b.example", "A test post", None);
    let req = create_request("https://b.example/activities/create/1", pg);
    community_inbox(&mut s, &req);
    s.persons[0].banned = true;
    let mut del = follow_request("https://b.example/activities/delete/1");
    del.envelope.kind = CommunityValidTypes::Delete;
    del.envelope.to.push(oid(PUBLIC, "www.w3.org"));
    del.envelope.object = ActivityObject::Reference(oid("https://b.example/post/9", "b.example"));
    let (outcome, _) = community_inbox(&mut s, &del);
    assert_eq!(outcome, InboxOutcome::Banned);
    assert!(!s.posts[0].deleted);
}

#[test]
fn like_then_undo_like() {
    let mut s = base_store();
    let pg = page("https://b.example/post/9", "b.example", "A test post", None);
    community_inbox(&mut s, &create_request("https://b.example/activities/create/1", pg));
    let mut like = follow_request("https://b.example/activities/like/1");
    like.envelope.kind = CommunityValidTypes::Like;
    like.envelope.to.push(oid(PUBLIC, "www.w3.org"));
    like.envelope.object = ActivityObject::Reference(oid("https://b.example/post/9", "b.example"));
    let (outcome, _) = community_inbox(&mut s, &like);
    assert_eq!(outcome, InboxOutcome::Accepted { announced: true });
    assert_eq!(s.post_likes.len(), 1);
    assert_eq!(s.post_likes[0].score, 1);
    let mut undo = follow_request("https://b.example/activities/undo/2");
    undo.envelope.kind = CommunityValidTypes::Undo;
    undo.envelope.to.push(oid(PUBLIC, "www.w3.org"));
    undo.envelope.object = ActivityObject::Activity(InnerActivity {
        id: oid("https://b.example/activities/like/1", "b.example"),
        actor: oid(ALICE, "b.example"),
        kind: CommunityValidTypes::Like,
        object: oid("https://b.example/post/9", "b.example"),
    });
    let (undone, _) = community_inbox(&mut s, &undo);
    assert_eq!(undone, InboxOutcome::Accepted { announced: true });
    assert!(s.post_likes.is_empty());
}

#[test]
fn dislike_records_negative_score() {
    let mut s = base_store();
    let pg = page("https://b.example/post/9", "b.example", "A test post", None);
    community_inbox(&mut s, &create_request("https://b.example/activities/create/1", pg));
    let mut dislike = follow_request("https://b.example/activities/dislike/1");
    dislike.envelope.kind = CommunityValidTypes::Dislike;
    dislike.envelope.to.push(oid(PUBLIC, "www.w3.org"));
    dislike.envelope.object =
        ActivityObject::Reference(oid("https://b.example/post/9", "b.example"));
    let (outcome, _) = community_inbox(&mut s, &dislike);
    assert_eq!(outcome, InboxOutcome::Accepted { announced: true });
    assert_eq!(s.post_likes[0].score, -1);
}

#[test]
fn delete_and_undo_delete_toggle_the_flag() {
    let mut s = base_store();
    let pg = page("https://b.example/post/9", "b.example", "A test post", None);
    community_inbox(&mut s, &create_request("https://b.example/activities/create/1", pg));
    let mut del = follow_request("https://b.example/activities/delete/1");
    del.envelope.kind = CommunityValidTypes::Delete;
    del.envelope.to.push(oid(PUBLIC, "www.w3.org"));
    del.envelope.object = ActivityObject::Reference(oid("https://b.example/post/9", "b.example"));
    let (d, _) = community_inbox(&mut s, &del);
    assert_eq!(d, InboxOutcome::Accepted { announced: true });
    assert!(s.posts[0].deleted);
    let mut undo = follow_request("https://b.example/activities/undo/3");
    undo.envelope.kind = CommunityValidTypes::Undo;
    undo.envelope.to.push(oid(PUBLIC, "www.w3.org"));
    undo.envelope.object = ActivityObject::Activity(InnerActivity {
        id: oid("https://b.example/activities/delete/1", "b.example"),
        actor: oid(ALICE, "b.example"),
        kind: CommunityValidTypes::Delete,
        object: oid("https://b.example/post/9", "b.example"),
    });
    let (u, _) = community_inbox(&mut s, &undo);
    assert_eq!(u, InboxOutcome::Accepted { announced: true });
    assert!(!s.posts[0].deleted);
}

#[test]
fn remote_remove_is_ignored() {
    let mut s = base_store();
    let pg = page("https://b.example/post/9", "b.example", "A test post", None);
    community_inbox(&mut s, &create_request("https://b.example/activities/create/1", pg));
    let mut rm = follow_request("https://b.example/activities/remove/1");
    rm.envelope.kind = CommunityValidTypes::Remove;
    rm.envelope.object = ActivityObject::Reference(oid("https://b.example/post/9", "b.example"));
    let (outcome, actions) = community_inbox(&mut s, &rm);
    assert_eq!(outcome, InboxOutcome::Accepted { announced: false });
    assert!(actions.is_empty());
    assert!(!s.posts[0].removed);
    assert!(!s.posts[0].deleted);
}

#[test]
fn slur_in_title_blocks_creation() {
    let mut s = base_store();
    let pg = page("https://b.example/post/9", "b.example", "a heck of a post", None);
    let mut req = create_request("https://b.example/activities/create/1", pg);
    req.denylist.push("heck".to_string());
    let (outcome, _) = community_inbox(&mut s, &req);
    assert_eq!(outcome, InboxOutcome::Rejected(InboxError::ContainsSlurs));
    assert!(s.posts.is_empty());
}

#[test]
fn slur_in_body_is_filtered_not_blocked() {
    let mut s = base_store();
    let pg = page(
        "https://b.example/post/9",
        "b.example",
        "A test post",
        Some("what the heck, friends"),
    );
    let mut req = create_request("https://b.example/activities/create/1", pg);
    req.denylist.push("heck".to_string());
    let (outcome, _) = community_inbox(&mut s, &req);
    assert_eq!(outcome, InboxOutcome::Accepted { announced: true });
    assert_eq!(s.posts[0].body.as_deref(), Some("what the *removed*, friends"));
}

#[test]
fn update_overwrites_the_post() {
    let mut s = base_store();
    let pg = page("https://b.example/post/9", "b.example", "A test post", Some("first"));
    community_inbox(&mut s, &create_request("https://b.example/activities/create/1", pg));
    let pg2 = page("https://b.example/post/9", "b.example", "An edited post", Some("second"));
    let mut req = create_request("https://b.example/activities/update/1", pg2);
    req.envelope.kind = CommunityValidTypes::Update;
    let (outcome, _) = community_inbox(&mut s, &req);
    assert_eq!(outcome, InboxOutcome::Accepted { announced: true });
    assert_eq!(s.posts.len(), 1);
    assert_eq!(s.posts[0].name, "An edited post");
    assert_eq!(s.posts[0].body.as_deref(), Some("second"));
}

#[test]
fn create_without_public_addressing_is_refused_after_translation() {
    let mut s = base_store();
    let pg = page("https://b.example/post/9", "b.example", "A test post", None);
    let mut req = follow_request("https://b.example/activities/create/1");
    req.envelope.kind = CommunityValidTypes::Create;
    req.envelope.object = ActivityObject::Page(pg);
    // Addressed to the community only, not to the public collection.
    let (outcome, actions) = community_inbox(&mut s, &req);
    assert_eq!(outcome, InboxOutcome::Rejected(InboxError::NotAddressedHere));
    assert!(actions.is_empty());
    // The effect stands; only the announce was withheld. Partial effects
    // are not rolled back, and the dedup record keeps the replay out.
    assert_eq!(s.posts.len(), 1);
    assert!(!s.dedup[0].forwarded);
}

#[test]
fn embed_metadata_is_used_only_with_a_link() {
    let mut s = base_store();
    let mut pg = page("https://b.example/post/9", "b.example", "A test post", None);
    pg.url = Some("https://example.net/article".to_string());
    let mut req = create_request("https://b.example/activities/create/1", pg);
    req.embed = EmbedMeta {
        title: Some("An article".to_string()),
        description: None,
        html: None,
        thumbnail: Some("https://a.example/pictrs/1".to_string()),
    };
    let (outcome, _) = community_inbox(&mut s, &req);
    assert_eq!(outcome, InboxOutcome::Accepted { announced: true });
    assert_eq!(s.posts[0].embed_title.as_deref(), Some("An article"));
    assert_eq!(s.posts[0].thumbnail_url.as_deref(), Some("https://a.example/pictrs/1"));
}

#[test]
fn page_image_is_the_thumbnail_without_a_link() {
    let mut s = base_store();
    let mut pg = page("https://b.example/post/9", "b.example", "A test post", None);
    pg.image_url = Some("https://b.example/media/7".to_string());
    let mut req = create_request("https://b.example/activities/create/1", pg);
    req.embed = EmbedMeta {
        title: Some("ignored".to_string()),
        description: None,
        html: None,
        thumbnail: None,
    };
    let (outcome, _) = community_inbox(&mut s, &req);
    assert_eq!(outcome, InboxOutcome::Accepted { announced: true });
    assert_eq!(s.posts[0].embed_title, None);
    assert_eq!(s.posts[0].thumbnail_url.as_deref(), Some("https://b.example/media/7"));
}

#[test]
fn page_without_title_cannot_be_translated() {
    let mut s = base_store();
    let mut pg = page("https://b.example/post/9", "b.example", "x", None);
    pg.name = None;
    let req = create_request("https://b.example/activities/create/1", pg);
    let (outcome, _) = community_inbox(&mut s, &req);
    assert_eq!(outcome, InboxOutcome::Rejected(InboxError::ProcessingFailure));
    assert_eq!(http_status(&outcome), 500);
    assert!(s.posts.is_empty());
}

#[test]
fn missing_publication_time_defaults_to_now() {
    let mut s = base_store();
    let mut pg = page("https://b.example/post/9", "b.example", "A test post", None);
    pg.published = None;
    let req = create_request("https://b.example/activities/create/1", pg);
    community_inbox(&mut s, &req);
    assert_eq!(s.posts[0].published, 1000);
}
