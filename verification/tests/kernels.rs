use lemmy_core::api::{
    add_mod_to_community, ban_from_community, create_community, follow_community,
    generate_apub_endpoint, generate_followers_url, generate_inbox_url, generate_shared_inbox_url,
    parse_listing_type, parse_search_type, parse_sort_type, promote_to_front, search_plan,
    ApiError, EndpointType, FollowAction, ListingType, SearchType, SortType,
};
use lemmy_core::community::{Community, CommunityModerator, CommunityPersonBan};
use lemmy_core::ids::ObjectId;
use lemmy_core::store::Store;

fn oid(full: &str, domain: &str) -> ObjectId {
    ObjectId { full: full.to_string(), domain: domain.to_string() }
}

fn community(id: i32, name: &str, full: &str, domain: &str, local: bool) -> Community {
    Community {
        id,
        name: name.to_string(),
        title: name.to_string(),
        description: None,
        creator_id: 1,
        removed: false,
        published: 0,
        updated: None,
        deleted: false,
        nsfw: false,
        actor_id: oid(full, domain),
        local,
        private_key: None,
        public_key: None,
        last_refreshed_at: 0,
        icon: None,
        banner: None,
        followers_url: format!("{}/followers", full),
        inbox_url: format!("{}/inbox", full),
        shared_inbox_url: None,
    }
}

fn store_with_tech() -> Store {
    let mut s = Store::new();
    s.communities.push(community(10, "tech", "https://a.example/c/tech", "a.example", true));
    s.next_community_id = 11;
    s
}

#[test]
fn parse_sort_type_reads_wire_names() {
    assert_eq!(parse_sort_type("Hot"), Some(SortType::Hot));
    assert_eq!(parse_sort_type("TopAll"), Some(SortType::TopAll));
    assert_eq!(parse_sort_type("hot"), None);
    assert_eq!(parse_sort_type(""), None);
}

#[test]
fn parse_listing_type_reads_wire_names() {
    assert_eq!(parse_listing_type("Subscribed"), Some(ListingType::Subscribed));
    assert_eq!(parse_listing_type("Everything"), None);
}

#[test]
fn parse_search_type_reads_wire_names() {
    assert_eq!(parse_search_type("Url"), Some(SearchType::Url));
    assert_eq!(parse_search_type("posts"), None);
}

#[test]
fn search_plan_picks_collections() {
    assert_eq!(search_plan(&SearchType::All), (true, true, true, true));
    assert_eq!(search_plan(&SearchType::Posts), (true, false, false, false));
    assert_eq!(search_plan(&SearchType::Comments), (false, true, false, false));
    assert_eq!(search_plan(&SearchType::Communities), (false, false, true, false));
    assert_eq!(search_plan(&SearchType::Users), (false, false, false, true));
    assert_eq!(search_plan(&SearchType::Url), (true, false, false, false));
}

#[test]
fn promote_to_front_pins_the_creator() {
    let mut ids = vec![4, 7, 2, 9];
    assert!(promote_to_front(&mut ids, 2));
    assert_eq!(ids, vec![2, 4, 7, 9]);
    let mut missing = vec![4, 7];
    assert!(!promote_to_front(&mut missing, 2));
    assert_eq!(missing, vec![4, 7]);
}

#[test]
fn endpoint_urls_are_assembled_exactly() {
    assert_eq!(
        generate_apub_endpoint(&EndpointType::Community, "tech", "https://a.example"),
        "https://a.example/c/tech"
    );
    assert_eq!(
        generate_apub_endpoint(&EndpointType::Person, "alice", "https://a.example"),
        "https://a.example/u/alice"
    );
    assert_eq!(generate_followers_url("https://a.example/c/tech"), "https://a.example/c/tech/followers");
    assert_eq!(generate_inbox_url("https://a.example/c/tech"), "https://a.example/c/tech/inbox");
    assert_eq!(generate_shared_inbox_url("https://a.example"), "https://a.example/inbox");
}

#[test]
fn follow_community_local_roundtrip() {
    let mut s = store_with_tech();
    assert_eq!(follow_community(&mut s, 1, 10, true), Ok(FollowAction::LocalOnly));
    assert_eq!(s.followers.len(), 1);
    assert_eq!(
        follow_community(&mut s, 1, 10, true),
        Err(ApiError::CommunityFollowerAlreadyExists)
    );
    assert_eq!(follow_community(&mut s, 1, 10, false), Ok(FollowAction::LocalOnly));
    assert!(s.followers.is_empty());
    assert_eq!(
        follow_community(&mut s, 1, 10, false),
        Err(ApiError::CommunityFollowerAlreadyExists)
    );
}

#[test]
fn follow_community_remote_waits_for_accept() {
    let mut s = Store::new();
    s.communities.push(community(20, "remote", "https://b.example/c/remote", "b.example", false));
    s.next_community_id = 21;
    assert_eq!(follow_community(&mut s, 1, 20, true), Ok(FollowAction::SendFollow));
    assert!(s.followers.is_empty());
}

#[test]
fn follow_community_banned_person_is_refused() {
    let mut s = store_with_tech();
    s.community_bans.push(CommunityPersonBan { community_id: 10, person_id: 1 });
    assert_eq!(follow_community(&mut s, 1, 10, true), Err(ApiError::CommunityBan));
    assert!(s.followers.is_empty());
}

#[test]
fn follow_community_unknown_community() {
    let mut s = Store::new();
    assert_eq!(follow_community(&mut s, 1, 99, true), Err(ApiError::CouldntFindCommunity));
}

#[test]
fn ban_from_community_needs_permission() {
    let mut s = store_with_tech();
    assert_eq!(
        ban_from_community(&mut s, 5, false, 1, 10, true, false),
        Err(ApiError::NotAModOrAdmin)
    );
}

#[test]
fn ban_removes_follower_and_posts() {
    let mut s = store_with_tech();
    s.moderators.push(CommunityModerator { community_id: 10, person_id: 5 });
    assert_eq!(follow_community(&mut s, 1, 10, true), Ok(FollowAction::LocalOnly));
    s.posts.push(lemmy_core::post::Post {
        id: 1,
        name: "A test post".to_string(),
        url: None,
        body: None,
        creator_id: 1,
        community_id: 10,
        removed: false,
        locked: false,
        published: 0,
        updated: None,
        deleted: false,
        nsfw: false,
        stickied: false,
        embed_title: None,
        embed_description: None,
        embed_html: None,
        thumbnail_url: None,
        ap_id: oid("https://a.example/post/1", "a.example"),
        local: true,
    });
    s.next_post_id = 2;
    assert_eq!(ban_from_community(&mut s, 5, false, 1, 10, true, true), Ok(()));
    assert!(s.followers.is_empty());
    assert_eq!(s.community_bans.len(), 1);
    assert!(s.posts[0].removed);
    assert_eq!(
        ban_from_community(&mut s, 5, false, 1, 10, true, false),
        Err(ApiError::CommunityUserAlreadyBanned)
    );
    assert_eq!(ban_from_community(&mut s, 5, false, 1, 10, false, false), Ok(()));
    assert!(s.community_bans.is_empty());
}

#[test]
fn add_mod_grant_and_revoke() {
    let mut s = store_with_tech();
    assert_eq!(add_mod_to_community(&mut s, 5, true, 7, 10, true), Ok(()));
    assert_eq!(s.moderators.len(), 1);
    assert_eq!(
        add_mod_to_community(&mut s, 5, true, 7, 10, true),
        Err(ApiError::CommunityModeratorAlreadyExists)
    );
    // The freshly seated moderator can act without admin rights.
    assert_eq!(add_mod_to_community(&mut s, 7, false, 8, 10, true), Ok(()));
    assert_eq!(add_mod_to_community(&mut s, 7, false, 8, 10, false), Ok(()));
    assert_eq!(
        add_mod_to_community(&mut s, 7, false, 8, 10, false),
        Err(ApiError::CommunityModeratorAlreadyExists)
    );
}

#[test]
fn create_community_full_flow() {
    let mut s = Store::new();
    let denylist = vec!["heck".to_string()];
    let r = create_community(
        &mut s,
        "tech",
        "Technology",
        &None,
        false,
        None,
        None,
        1,
        "private".to_string(),
        "pub".to_string(),
        "https://a.example",
        "a.example",
        1000,
        &denylist,
    );
    assert_eq!(r, Ok(1));
    assert_eq!(s.communities.len(), 1);
    assert_eq!(s.communities[0].actor_id.full, "https://a.example/c/tech");
    assert_eq!(s.communities[0].followers_url, "https://a.example/c/tech/followers");
    assert!(s.communities[0].local);
    assert_eq!(s.moderators.len(), 1);
    assert_eq!(s.followers.len(), 1);
    // The same name cannot be taken twice.
    let dupe = create_community(
        &mut s,
        "tech",
        "Technology",
        &None,
        false,
        None,
        None,
        1,
        "private".to_string(),
        "pub".to_string(),
        "https://a.example",
        "a.example",
        1000,
        &denylist,
    );
    assert_eq!(dupe, Err(ApiError::CommunityAlreadyExists));
}

#[test]
fn create_community_validation_errors() {
    let mut s = Store::new();
    let denylist = vec!["heck".to_string()];
    let slurred = create_community(
        &mut s,
        "tech",
        "what the heck",
        &None,
        false,
        None,
        None,
        1,
        "private".to_string(),
        "pub".to_string(),
        "https://a.example",
        "a.example",
        1000,
        &denylist,
    );
    assert_eq!(slurred, Err(ApiError::Slurs));
    let bad_name = create_community(
        &mut s,
        "Tech Talk",
        "Technology",
        &None,
        false,
        None,
        None,
        1,
        "private".to_string(),
        "pub".to_string(),
        "https://a.example",
        "a.example",
        1000,
        &denylist,
    );
    assert_eq!(bad_name, Err(ApiError::InvalidCommunityName));
    assert!(s.communities.is_empty());
}

#[test]
fn api_error_wire_codes() {
    assert_eq!(ApiError::Slurs.message(), "slurs");
    assert_eq!(ApiError::InvalidCommunityName.message(), "invalid_community_name");
    assert_eq!(ApiError::CommunityFollowerAlreadyExists.message(), "community_follower_already_exists");
    assert_eq!(ApiError::NotAModOrAdmin.message(), "not_a_mod_or_admin");
}

#[test]
fn edit_community_changes_presentation_only() {
    let mut s = store_with_tech();
    s.moderators.push(CommunityModerator { community_id: 10, person_id: 5 });
    let denylist = vec!["heck".to_string()];
    assert_eq!(
        lemmy_core::api::edit_community(
            &mut s,
            5,
            10,
            "Technology, but better",
            &Some("all about machines".to_string()),
            None,
            None,
            true,
            2000,
            &denylist,
        ),
        Ok(())
    );
    assert_eq!(s.communities[0].title, "Technology, but better");
    assert_eq!(s.communities[0].name, "tech");
    assert!(s.communities[0].nsfw);
    assert_eq!(s.communities[0].updated, Some(2000));
    assert_eq!(
        lemmy_core::api::edit_community(&mut s, 6, 10, "t", &None, None, None, false, 0, &denylist),
        Err(ApiError::NotAModerator)
    );
    assert_eq!(
        lemmy_core::api::edit_community(
            &mut s,
            5,
            10,
            "a heck of a title",
            &None,
            None,
            None,
            false,
            0,
            &denylist,
        ),
        Err(ApiError::Slurs)
    );
}

#[test]
fn delete_community_only_by_its_creator() {
    let mut s = store_with_tech();
    assert_eq!(
        lemmy_core::api::delete_community(&mut s, 2, 10, true),
        Err(ApiError::NoCommunityEditAllowed)
    );
    assert_eq!(lemmy_core::api::delete_community(&mut s, 1, 10, true), Ok(()));
    assert!(s.communities[0].deleted);
    assert_eq!(lemmy_core::api::delete_community(&mut s, 1, 10, false), Ok(()));
    assert!(!s.communities[0].deleted);
}

#[test]
fn remove_community_only_by_an_admin() {
    let mut s = store_with_tech();
    assert_eq!(lemmy_core::api::remove_community(&mut s, false, 10, true), Err(ApiError::NotAnAdmin));
    assert_eq!(lemmy_core::api::remove_community(&mut s, true, 10, true), Ok(()));
    assert!(s.communities[0].removed);
}

#[test]
fn transfer_community_reorders_the_seats() {
    let mut s = store_with_tech();
    s.moderators.push(CommunityModerator { community_id: 10, person_id: 1 });
    s.moderators.push(CommunityModerator { community_id: 10, person_id: 7 });
    s.moderators.push(CommunityModerator { community_id: 99, person_id: 3 });
    assert_eq!(lemmy_core::api::transfer_community(&mut s, 1, false, 10, 7), Ok(()));
    assert_eq!(s.communities[0].creator_id, 7);
    // The new owner's seat now comes first; the other community's seat
    // is untouched.
    let seats: Vec<(i32, i32)> =
        s.moderators.iter().map(|m| (m.community_id, m.person_id)).collect();
    assert!(seats.contains(&(10, 7)));
    assert!(seats.contains(&(10, 1)));
    assert!(seats.contains(&(99, 3)));
    let first_of_ten = s.moderators.iter().find(|m| m.community_id == 10).unwrap();
    assert_eq!(first_of_ten.person_id, 7);
    // A person without a seat cannot be made owner.
    assert_eq!(
        lemmy_core::api::transfer_community(&mut s, 7, false, 10, 42),
        Err(ApiError::CouldntUpdateCommunity)
    );
    // Only the creator or an admin may transfer.
    assert_eq!(lemmy_core::api::transfer_community(&mut s, 1, false, 10, 1), Err(ApiError::NotAnAdmin));
}
