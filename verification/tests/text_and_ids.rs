use lemmy_core::aggregates::{PersonAggregates, PostAggregates};
use lemmy_core::api_structs::GetReportCountResponse;
use lemmy_core::ids::{object_id_from_str, ObjectId};
use lemmy_core::post::{Post, TombstoneData};
use lemmy_core::text::{
    contains_any_word, is_valid_community_name, remove_slurs, str_contains_word, str_eq,
};

fn words(ws: &[&str]) -> Vec<String> {
    ws.iter().map(|w| w.to_string()).collect()
}

#[test]
fn object_id_from_str_extracts_the_host() {
    let id = object_id_from_str("https://b.example/u/alice").unwrap();
    assert_eq!(id.full, "https://b.example/u/alice");
    assert_eq!(id.domain, "b.example");
}

#[test]
fn object_id_from_str_refuses_hostless_strings() {
    assert!(object_id_from_str("not a url").is_none());
    assert!(object_id_from_str("data:text/plain,stuff").is_none());
}

#[test]
fn same_id_and_same_domain_compare_content() {
    let a = object_id_from_str("https://b.example/u/alice").unwrap();
    let b = object_id_from_str("https://b.example/u/bob").unwrap();
    assert!(!a.same_id(&b));
    assert!(a.same_domain(&b));
}

#[test]
fn community_name_rules() {
    assert!(is_valid_community_name("tech"));
    assert!(is_valid_community_name("til_2"));
    assert!(!is_valid_community_name("no"));
    assert!(!is_valid_community_name("Tech"));
    assert!(!is_valid_community_name("tech talk"));
    assert!(!is_valid_community_name("a_very_long_name_over_the_limit"));
}

#[test]
fn substring_search_basics() {
    assert!(str_contains_word("what the heck", "heck"));
    assert!(str_contains_word("heck", "heck"));
    assert!(!str_contains_word("hec", "heck"));
    assert!(str_contains_word("anything", ""));
    assert!(!contains_any_word("clean text", &words(&["heck", "darn"])));
    assert!(contains_any_word("well darn it", &words(&["heck", "darn"])));
}

#[test]
fn remove_slurs_replaces_each_occurrence() {
    let ws = words(&["heck", "darn"]);
    assert_eq!(remove_slurs("what the heck", &ws, "*removed*"), "what the *removed*");
    assert_eq!(
        remove_slurs("heck and darn and heck", &ws, "*removed*"),
        "*removed* and *removed* and *removed*"
    );
    assert_eq!(remove_slurs("clean", &ws, "*removed*"), "clean");
    assert_eq!(remove_slurs("", &ws, "*removed*"), "");
}

#[test]
fn remove_slurs_first_listed_word_wins() {
    // Both words match at the same position; the first listed one is
    // consumed, so the trailing "s" survives.
    let ws = words(&["dang", "dangs"]);
    assert_eq!(remove_slurs("dangs", &ws, "*"), "*s");
}

#[test]
fn str_eq_is_content_equality() {
    assert!(str_eq("abc", "abc"));
    assert!(!str_eq("abc", "abd"));
    assert!(!str_eq("abc", "ab"));
    assert!(str_eq("", ""));
}

#[test]
fn tombstone_only_for_deleted_posts() {
    let post = Post {
        id: 1,
        name: "A test post".to_string(),
        url: None,
        body: None,
        creator_id: 1,
        community_id: 10,
        removed: false,
        locked: false,
        published: 0,
        updated: Some(5),
        deleted: false,
        nsfw: false,
        stickied: false,
        embed_title: None,
        embed_description: None,
        embed_html: None,
        thumbnail_url: None,
        ap_id: ObjectId { full: "https://a.example/post/1".to_string(), domain: "a.example".to_string() },
        local: true,
    };
    assert!(post.to_tombstone().is_none());
    let deleted = Post { deleted: true, ..post };
    let t: TombstoneData = deleted.to_tombstone().unwrap();
    assert_eq!(t.ap_id.full, "https://a.example/post/1");
    assert_eq!(t.updated, Some(5));
}

#[test]
fn aggregate_helpers() {
    let pa = PostAggregates {
        id: 1,
        post_id: 1,
        comments: 2,
        score: 0,
        upvotes: 1,
        downvotes: 1,
        stickied: false,
        published: 0,
        newest_comment_time_necro: 0,
        newest_comment_time: 0,
    };
    assert_eq!(pa.vote_balance(), Some(0));
    let counts = GetReportCountResponse { community: None, comment_reports: 2, post_reports: 3 };
    assert_eq!(counts.total_reports(), Some(5));
    let person_agg = PersonAggregates {
        id: 1,
        person_id: 1,
        post_count: 1,
        post_score: 1,
        comment_count: 2,
        comment_score: 2,
    };
    assert_eq!(person_agg.post_count, 1);
}

#[test]
fn fetched_document_must_answer_under_its_own_url() {
    let requested = object_id_from_str("https://b.example/u/alice").unwrap();
    let honest = object_id_from_str("https://b.example/u/alice").unwrap();
    let spoofed = object_id_from_str("https://b.example/u/admin").unwrap();
    assert!(lemmy_core::ids::fetched_document_matches(&requested, &honest));
    assert!(!lemmy_core::ids::fetched_document_matches(&requested, &spoofed));
}

#[test]
fn upsert_person_refreshes_without_changing_the_id() {
    let mut persons = Vec::new();
    let mut next_id = 1;
    let alice = |banned: bool| lemmy_core::person::Person {
        id: 0,
        name: "alice".to_string(),
        preferred_username: None,
        avatar: None,
        banned,
        published: 0,
        updated: None,
        actor_id: ObjectId {
            full: "https://b.example/u/alice".to_string(),
            domain: "b.example".to_string(),
        },
        bio: None,
        local: false,
        private_key: None,
        public_key: Some("key-one".to_string()),
        last_refreshed_at: 0,
        banner: None,
        deleted: false,
        inbox_url: "https://b.example/u/alice/inbox".to_string(),
        shared_inbox_url: None,
    };
    let idx = lemmy_core::store::upsert_person(&mut persons, &mut next_id, alice(false));
    assert_eq!(idx, 0);
    assert_eq!(persons.len(), 1);
    assert_eq!(persons[0].id, 1);
    assert_eq!(next_id, 2);
    // A refresh keeps the row id even when the record changes.
    let idx2 = lemmy_core::store::upsert_person(&mut persons, &mut next_id, alice(true));
    assert_eq!(idx2, 0);
    assert_eq!(persons.len(), 1);
    assert_eq!(persons[0].id, 1);
    assert!(persons[0].banned);
    assert_eq!(next_id, 2);
}
