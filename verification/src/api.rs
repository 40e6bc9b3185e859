//! Decision kernels of the client-facing handlers.
//!
//! The handlers themselves live with the HTTP layer and the storage
//! collaborator; what is verified here is what they decide: permission
//! checks, name and content validation, endpoint URL construction, the
//! follow/ban/moderator transitions, and which collections a search
//! fills.

use vstd::prelude::*;
use crate::community::{Community, CommunityFollowerForm, CommunityModeratorForm,
    CommunityPersonBanForm};
use crate::store::{
    Store, ban, find_community_by_id, find_community_by_name, follow, has_ban, has_community_actor, has_community_name,
    has_follower, has_moderator, join, leave, unban, unfollow, update_removed_for_creator,
};
use crate::text::{contains_any, contains_any_word, is_valid_community_name,
    spec_valid_community_name, str_eq};

verus! {

/// The errors the client API answers with; each carries the wire code
/// the HTTP layer serialises.
#[derive(Clone, Copy, Debug, PartialEq, Eq, Structural)]
pub enum ApiError {
    Slurs,
    InvalidCommunityName,
    CommunityAlreadyExists,
    CommunityModeratorAlreadyExists,
    CommunityFollowerAlreadyExists,
    CommunityUserAlreadyBanned,
    CommunityBan,
    CouldntFindCommunity,
    CouldntUpdateCommunity,
    NotAModerator,
    NotAnAdmin,
    NotAModOrAdmin,
    NoCommunityEditAllowed,
}

impl ApiError {
    /// The wire code of this error.
    pub fn message(&self) -> (r: String)
        ensures
            *self == ApiError::Slurs ==> r@ == "slurs"@,
            *self == ApiError::InvalidCommunityName ==> r@ == "invalid_community_name"@,
            *self == ApiError::CommunityAlreadyExists ==> r@ == "community_already_exists"@,
            *self == ApiError::CommunityModeratorAlreadyExists ==> r@
                == "community_moderator_already_exists"@,
            *self == ApiError::CommunityFollowerAlreadyExists ==> r@
                == "community_follower_already_exists"@,
            *self == ApiError::CommunityUserAlreadyBanned ==> r@
                == "community_user_already_banned"@,
            *self == ApiError::CommunityBan ==> r@ == "community_ban"@,
            *self == ApiError::CouldntFindCommunity ==> r@ == "couldnt_find_community"@,
            *self == ApiError::CouldntUpdateCommunity ==> r@ == "couldnt_update_community"@,
            *self == ApiError::NotAModerator ==> r@ == "not_a_moderator"@,
            *self == ApiError::NotAnAdmin ==> r@ == "not_an_admin"@,
            *self == ApiError::NotAModOrAdmin ==> r@ == "not_a_mod_or_admin"@,
            *self == ApiError::NoCommunityEditAllowed ==> r@ == "no_community_edit_allowed"@,
    {
        match self {
            ApiError::Slurs => String::from_str("slurs"),
            ApiError::InvalidCommunityName => String::from_str("invalid_community_name"),
            ApiError::CommunityAlreadyExists => String::from_str("community_already_exists"),
            ApiError::CommunityModeratorAlreadyExists => String::from_str(
                "community_moderator_already_exists",
            ),
            ApiError::CommunityFollowerAlreadyExists => String::from_str(
                "community_follower_already_exists",
            ),
            ApiError::CommunityUserAlreadyBanned => String::from_str(
                "community_user_already_banned",
            ),
            ApiError::CommunityBan => String::from_str("community_ban"),
            ApiError::CouldntFindCommunity => String::from_str("couldnt_find_community"),
            ApiError::CouldntUpdateCommunity => String::from_str("couldnt_update_community"),
            ApiError::NotAModerator => String::from_str("not_a_moderator"),
            ApiError::NotAnAdmin => String::from_str("not_an_admin"),
            ApiError::NotAModOrAdmin => String::from_str("not_a_mod_or_admin"),
            ApiError::NoCommunityEditAllowed => String::from_str("no_community_edit_allowed"),
        }
    }
}

/// How listings are ordered.
#[derive(Clone, Copy, Debug, PartialEq, Eq, Structural)]
pub enum SortType {
    Active,
    Hot,
    New,
    TopDay,
    TopWeek,
    TopMonth,
    TopYear,
    TopAll,
}

/// Which communities a listing covers.
#[derive(Clone, Copy, Debug, PartialEq, Eq, Structural)]
pub enum ListingType {
    All,
    Local,
    Subscribed,
    Community,
}

/// What a search query asks for.
#[derive(Clone, Copy, Debug, PartialEq, Eq, Structural)]
pub enum SearchType {
    All,
    Comments,
    Posts,
    Communities,
    Users,
    Url,
}

/// The sort order a wire name denotes.
pub open spec fn spec_parse_sort_type(s: Seq<char>) -> Option<SortType> {
    if s == "Active"@ {
        Some(SortType::Active)
    } else if s == "Hot"@ {
        Some(SortType::Hot)
    } else if s == "New"@ {
        Some(SortType::New)
    } else if s == "TopDay"@ {
        Some(SortType::TopDay)
    } else if s == "TopWeek"@ {
        Some(SortType::TopWeek)
    } else if s == "TopMonth"@ {
        Some(SortType::TopMonth)
    } else if s == "TopYear"@ {
        Some(SortType::TopYear)
    } else if s == "TopAll"@ {
        Some(SortType::TopAll)
    } else {
        None
    }
}

/// Reads a sort order from its wire name.
pub fn parse_sort_type(s: &str) -> (r: Option<SortType>)
    ensures
        r == spec_parse_sort_type(s@),
{
    if str_eq(s, "Active") {
        Some(SortType::Active)
    } else if str_eq(s, "Hot") {
        Some(SortType::Hot)
    } else if str_eq(s, "New") {
        Some(SortType::New)
    } else if str_eq(s, "TopDay") {
        Some(SortType::TopDay)
    } else if str_eq(s, "TopWeek") {
        Some(SortType::TopWeek)
    } else if str_eq(s, "TopMonth") {
        Some(SortType::TopMonth)
    } else if str_eq(s, "TopYear") {
        Some(SortType::TopYear)
    } else if str_eq(s, "TopAll") {
        Some(SortType::TopAll)
    } else {
        None
    }
}

/// The listing scope a wire name denotes.
pub open spec fn spec_parse_listing_type(s: Seq<char>) -> Option<ListingType> {
    if s == "All"@ {
        Some(ListingType::All)
    } else if s == "Local"@ {
        Some(ListingType::Local)
    } else if s == "Subscribed"@ {
        Some(ListingType::Subscribed)
    } else if s == "Community"@ {
        Some(ListingType::Community)
    } else {
        None
    }
}

/// Reads a listing scope from its wire name.
pub fn parse_listing_type(s: &str) -> (r: Option<ListingType>)
    ensures
        r == spec_parse_listing_type(s@),
{
    if str_eq(s, "All") {
        Some(ListingType::All)
    } else if str_eq(s, "Local") {
        Some(ListingType::Local)
    } else if str_eq(s, "Subscribed") {
        Some(ListingType::Subscribed)
    } else if str_eq(s, "Community") {
        Some(ListingType::Community)
    } else {
        None
    }
}

/// The search flavour a wire name denotes.
pub open spec fn spec_parse_search_type(s: Seq<char>) -> Option<SearchType> {
    if s == "All"@ {
        Some(SearchType::All)
    } else if s == "Comments"@ {
        Some(SearchType::Comments)
    } else if s == "Posts"@ {
        Some(SearchType::Posts)
    } else if s == "Communities"@ {
        Some(SearchType::Communities)
    } else if s == "Users"@ {
        Some(SearchType::Users)
    } else if s == "Url"@ {
        Some(SearchType::Url)
    } else {
        None
    }
}

/// Reads a search flavour from its wire name.
pub fn parse_search_type(s: &str) -> (r: Option<SearchType>)
    ensures
        r == spec_parse_search_type(s@),
{
    if str_eq(s, "All") {
        Some(SearchType::All)
    } else if str_eq(s, "Comments") {
        Some(SearchType::Comments)
    } else if str_eq(s, "Posts") {
        Some(SearchType::Posts)
    } else if str_eq(s, "Communities") {
        Some(SearchType::Communities)
    } else if str_eq(s, "Users") {
        Some(SearchType::Users)
    } else if str_eq(s, "Url") {
        Some(SearchType::Url)
    } else {
        None
    }
}

/// Which collections a search of this flavour queries, as (posts,
/// comments, communities, users). A url search is a post search by
/// link.
pub fn search_plan(t: &SearchType) -> (r: (bool, bool, bool, bool))
    ensures
        r.0 == (*t == SearchType::Posts || *t == SearchType::All || *t == SearchType::Url),
        r.1 == (*t == SearchType::Comments || *t == SearchType::All),
        r.2 == (*t == SearchType::Communities || *t == SearchType::All),
        r.3 == (*t == SearchType::Users || *t == SearchType::All),
{
    match t {
        SearchType::All => (true, true, true, true),
        SearchType::Comments => (false, true, false, false),
        SearchType::Posts => (true, false, false, false),
        SearchType::Communities => (false, false, true, false),
        SearchType::Users => (false, false, false, true),
        SearchType::Url => (true, false, false, false),
    }
}

/// True when `ids` holds `id`.
pub fn ids_contain(ids: &Vec<i32>, id: i32) -> (r: bool)
    ensures
        r == ids@.contains(id),
{
    let mut i: usize = 0;
    while i < ids.len()
        invariant
            0 <= i <= ids@.len(),
            forall|t: int| 0 <= t < i ==> ids@[t] != id,
        decreases ids@.len() - i,
    {
        if ids[i] == id {
            assert(ids@[i as int] == id);
            return true;
        }
        i = i + 1;
    }
    assert(!ids@.contains(id));
    false
}

/// Moves the first occurrence of `target` to the front, keeping the
/// rest in order: how the site creator is pinned to the top of the
/// admin list, and a new owner to the top of the moderator list.
pub fn promote_to_front(ids: &mut Vec<i32>, target: i32) -> (found: bool)
    ensures
        found == old(ids)@.contains(target),
        !found ==> final(ids)@ == old(ids)@,
        found ==> exists|i: int|
            0 <= i < old(ids)@.len() && old(ids)@[i] == target && final(ids)@ == old(ids)@.remove(
                i,
            ).insert(0, target),
        final(ids)@.len() == old(ids)@.len(),
        found ==> final(ids)@.len() > 0 && final(ids)@[0] == target,
        forall|x: i32| final(ids)@.contains(x) == old(ids)@.contains(x),
{
    let n = ids.len();
    let mut i: usize = 0;
    while i < n
        invariant
            n == ids@.len(),
            ids@ == old(ids)@,
            0 <= i <= n,
            forall|t: int| 0 <= t < i ==> ids@[t] != target,
        decreases n - i,
    {
        if ids[i] == target {
            assert(ids@[i as int] == target);
            let ghost pre = ids@;
            ids.remove(i);
            let ghost mid = ids@;
            ids.insert(0, target);
            proof {
                assert(ids@ == pre.remove(i as int).insert(0, target));
                assert(ids@[0] == target);
                assert(pre.contains(target));
                pre.remove_ensures(i as int);
                mid.insert_ensures(0, target);
                assert forall|x: i32| ids@.contains(x) == pre.contains(x) by {
                    if ids@.contains(x) {
                        let w = choose|w: int| 0 <= w < ids@.len() && #[trigger] ids@[w] == x;
                        if w == 0 {
                            assert(pre[i as int] == x);
                        } else {
                            assert(ids@[w] == mid[w - 1]);
                            let w2: int = if w - 1 < i {
                                w - 1
                            } else {
                                w
                            };
                            assert(mid[w - 1] == pre[w2]);
                        }
                    }
                    if pre.contains(x) {
                        let w = choose|w: int| 0 <= w < pre.len() && #[trigger] pre[w] == x;
                        if w == i {
                            assert(ids@[0] == x);
                        } else {
                            let w2: int = if w < i {
                                w
                            } else {
                                w - 1
                            };
                            assert(mid[w2] == pre[w]);
                            assert(ids@[w2 + 1] == mid[w2]);
                        }
                    }
                }
            }
            return true;
        }
        i = i + 1;
    }
    assert(!ids@.contains(target));
    false
}

/// Refuses text that the denylist disallows; what the eager filter does
/// to locally supplied names and titles.
pub fn check_slurs(text: &str, words: &Vec<String>) -> (r: Result<(), ApiError>)
    ensures
        (r is Err) == contains_any(text@, words.deep_view()),
        (r is Err) ==> r == Result::<(), ApiError>::Err(ApiError::Slurs),
{
    if contains_any_word(text, words) {
        Err(ApiError::Slurs)
    } else {
        Ok(())
    }
}

/// `check_slurs` over an optional field; absent text is clean.
pub fn check_slurs_opt(text: &Option<String>, words: &Vec<String>) -> (r: Result<(), ApiError>)
    ensures
        (r is Err) == (match *text {
            Some(t) => contains_any(t@, words.deep_view()),
            None => false,
        }),
        (r is Err) ==> r == Result::<(), ApiError>::Err(ApiError::Slurs),
{
    match text {
        Some(t) => check_slurs(t.as_str(), words),
        None => Ok(()),
    }
}

} // verus!

verus! {

/// The kinds of local objects that get a federation endpoint URL.
#[derive(Clone, Copy, Debug, PartialEq, Eq, Structural)]
pub enum EndpointType {
    Community,
    Person,
    Post,
    Comment,
    PrivateMessage,
}

/// The path segment an endpoint type lives under.
pub open spec fn spec_endpoint_tag(t: EndpointType) -> Seq<char> {
    match t {
        EndpointType::Community => "c"@,
        EndpointType::Person => "u"@,
        EndpointType::Post => "post"@,
        EndpointType::Comment => "comment"@,
        EndpointType::PrivateMessage => "private_message"@,
    }
}

/// The identifier URL a local object of the given kind and name gets,
/// under this node's protocol and hostname.
pub fn generate_apub_endpoint(
    endpoint_type: &EndpointType,
    name: &str,
    protocol_and_hostname: &str,
) -> (r: String)
    ensures
        r@ == protocol_and_hostname@ + "/"@ + spec_endpoint_tag(*endpoint_type) + "/"@ + name@,
{
    let mut out = String::from_str(protocol_and_hostname);
    out.append("/");
    match endpoint_type {
        EndpointType::Community => out.append("c"),
        EndpointType::Person => out.append("u"),
        EndpointType::Post => out.append("post"),
        EndpointType::Comment => out.append("comment"),
        EndpointType::PrivateMessage => out.append("private_message"),
    }
    out.append("/");
    out.append(name);
    out
}

/// The followers collection URL of an actor.
pub fn generate_followers_url(actor_id: &str) -> (r: String)
    ensures
        r@ == actor_id@ + "/followers"@,
{
    let mut out = String::from_str(actor_id);
    out.append("/followers");
    out
}

/// The inbox URL of an actor.
pub fn generate_inbox_url(actor_id: &str) -> (r: String)
    ensures
        r@ == actor_id@ + "/inbox"@,
{
    let mut out = String::from_str(actor_id);
    out.append("/inbox");
    out
}

/// The shared inbox URL of this node.
pub fn generate_shared_inbox_url(protocol_and_hostname: &str) -> (r: String)
    ensures
        r@ == protocol_and_hostname@ + "/inbox"@,
{
    let mut out = String::from_str(protocol_and_hostname);
    out.append("/inbox");
    out
}

/// True when some community of `cs` has row id `id`.
pub open spec fn has_community_id(cs: Seq<Community>, id: i32) -> bool {
    exists|i: int| 0 <= i < cs.len() && (#[trigger] cs[i]).id == id
}

/// The index of the community with row id `id`; meaningful when it
/// exists and ids are unique.
pub open spec fn community_index_by_id(cs: Seq<Community>, id: i32) -> int {
    choose|i: int| 0 <= i < cs.len() && (#[trigger] cs[i]).id == id
}

/// With unique ids, any index holding `id` is the one
/// `community_index_by_id` names.
pub proof fn lemma_community_id_index_unique(cs: Seq<Community>, next_id: i32, id: i32, i: int)
    requires
        crate::store::communities_unique(cs, next_id),
        0 <= i < cs.len(),
        cs[i].id == id,
    ensures
        community_index_by_id(cs, id) == i,
        has_community_id(cs, id),
{
    assert(has_community_id(cs, id));
    let j = community_index_by_id(cs, id);
    if i < j {
        assert(cs[i].id != cs[j].id);
    } else if j < i {
        assert(cs[j].id != cs[i].id);
    }
}

/// What a local person asks the follow handler to do, and what comes
/// back for the outbound side when the community is remote.
#[derive(Clone, Copy, Debug, PartialEq, Eq, Structural)]
pub enum FollowAction {
    /// Nothing to send; the follow or unfollow was applied locally.
    LocalOnly,
    /// Send a follow activity to the remote community and await its
    /// accept before the relation is counted.
    SendFollow,
    /// Send an unfollow to the remote community.
    SendUnfollow,
}

/// A local person follows or unfollows a community.
///
/// A local community is followed synchronously, after a ban check, with
/// the duplicate relation refused as the storage layer does; a remote
/// community only gets an outbound follow, since the relation waits for
/// the remote accept. An unfollow of an absent relation is refused with
/// the same wire code the storage layer produces.
pub fn follow_community(
    store: &mut Store,
    person_id: i32,
    community_id: i32,
    wants_follow: bool,
) -> (r: Result<FollowAction, ApiError>)
    requires
        old(store).wf(),
    ensures
        final(store).wf(),
        final(store).persons@ == old(store).persons@,
        final(store).communities@ == old(store).communities@,
        final(store).posts@ == old(store).posts@,
        final(store).post_likes@ == old(store).post_likes@,
        final(store).community_bans@ == old(store).community_bans@,
        final(store).moderators@ == old(store).moderators@,
        final(store).dedup@ == old(store).dedup@,
        !has_community_id(old(store).communities@, community_id) ==> r == Result::<
            FollowAction,
            ApiError,
        >::Err(ApiError::CouldntFindCommunity) && final(store).followers@ == old(store).followers@,
        ({
            let cs = old(store).communities@;
            let c = cs[community_index_by_id(cs, community_id)];
            has_community_id(cs, community_id) ==> {
                &&& (c.local && wants_follow && has_ban(
                    old(store).community_bans@,
                    community_id,
                    person_id,
                ) ==> r == Result::<FollowAction, ApiError>::Err(ApiError::CommunityBan)
                    && final(store).followers@ == old(store).followers@)
                &&& (c.local && wants_follow && !has_ban(
                    old(store).community_bans@,
                    community_id,
                    person_id,
                ) && has_follower(old(store).followers@, community_id, person_id) ==> r
                    == Result::<FollowAction, ApiError>::Err(
                    ApiError::CommunityFollowerAlreadyExists,
                ) && final(store).followers@ == old(store).followers@)
                &&& (c.local && wants_follow && !has_ban(
                    old(store).community_bans@,
                    community_id,
                    person_id,
                ) && !has_follower(old(store).followers@, community_id, person_id) ==> r
                    == Result::<FollowAction, ApiError>::Ok(FollowAction::LocalOnly)
                    && has_follower(final(store).followers@, community_id, person_id))
                &&& (c.local && !wants_follow && has_follower(
                    old(store).followers@,
                    community_id,
                    person_id,
                ) ==> r == Result::<FollowAction, ApiError>::Ok(FollowAction::LocalOnly)
                    && !has_follower(final(store).followers@, community_id, person_id))
                &&& (c.local && !wants_follow && !has_follower(
                    old(store).followers@,
                    community_id,
                    person_id,
                ) ==> r == Result::<FollowAction, ApiError>::Err(
                    ApiError::CommunityFollowerAlreadyExists,
                ) && final(store).followers@ == old(store).followers@)
                &&& (!c.local && wants_follow ==> r == Result::<FollowAction, ApiError>::Ok(
                    FollowAction::SendFollow,
                ) && final(store).followers@ == old(store).followers@)
                &&& (!c.local && !wants_follow && has_follower(
                    old(store).followers@,
                    community_id,
                    person_id,
                ) ==> r == Result::<FollowAction, ApiError>::Ok(FollowAction::SendUnfollow)
                    && !has_follower(final(store).followers@, community_id, person_id))
                &&& (!c.local && !wants_follow && !has_follower(
                    old(store).followers@,
                    community_id,
                    person_id,
                ) ==> r == Result::<FollowAction, ApiError>::Err(
                    ApiError::CommunityFollowerAlreadyExists,
                ) && final(store).followers@ == old(store).followers@)
            }
        }),
{
    let c_idx = match find_community_by_id(&store.communities, community_id) {
        Some(i) => i,
        None => {
            return Err(ApiError::CouldntFindCommunity);
        },
    };
    proof {
        lemma_community_id_index_unique(
            old(store).communities@,
            old(store).next_community_id,
            community_id,
            c_idx as int,
        );
    }
    let form = CommunityFollowerForm { community_id, person_id, pending: false };
    if store.communities[c_idx].local {
        if wants_follow {
            if crate::store::is_banned(&store.community_bans, community_id, person_id) {
                return Err(ApiError::CommunityBan);
            }
            if !follow(&mut store.followers, &form) {
                return Err(ApiError::CommunityFollowerAlreadyExists);
            }
            Ok(FollowAction::LocalOnly)
        } else {
            if !unfollow(&mut store.followers, &form) {
                return Err(ApiError::CommunityFollowerAlreadyExists);
            }
            Ok(FollowAction::LocalOnly)
        }
    } else if wants_follow {
        // The relation waits for the remote accept; nothing is written.
        Ok(FollowAction::SendFollow)
    } else {
        if !unfollow(&mut store.followers, &form) {
            return Err(ApiError::CommunityFollowerAlreadyExists);
        }
        Ok(FollowAction::SendUnfollow)
    }
}

/// A moderator or admin bans a person from a community, or lifts the
/// ban. A fresh ban also drops the person's follower relation, and, on
/// request, marks all their posts in the community as removed; an unban
/// restores nothing by itself.
pub fn ban_from_community(
    store: &mut Store,
    mod_person_id: i32,
    is_admin: bool,
    person_id: i32,
    community_id: i32,
    wants_ban: bool,
    remove_data: bool,
) -> (r: Result<(), ApiError>)
    requires
        old(store).wf(),
    ensures
        final(store).wf(),
        final(store).persons@ == old(store).persons@,
        final(store).communities@ == old(store).communities@,
        final(store).post_likes@ == old(store).post_likes@,
        final(store).moderators@ == old(store).moderators@,
        final(store).dedup@ == old(store).dedup@,
        !(is_admin || has_moderator(old(store).moderators@, community_id, mod_person_id)) ==> r
            == Result::<(), ApiError>::Err(ApiError::NotAModOrAdmin) && final(store).community_bans@
            == old(store).community_bans@ && final(store).followers@ == old(store).followers@
            && final(store).posts@ == old(store).posts@,
        ({
            let allowed = is_admin || has_moderator(old(store).moderators@, community_id, mod_person_id);
            &&& (allowed && wants_ban && has_ban(old(store).community_bans@, community_id, person_id)
                ==> r == Result::<(), ApiError>::Err(ApiError::CommunityUserAlreadyBanned)
                    && final(store).community_bans@ == old(store).community_bans@
                    && final(store).followers@ == old(store).followers@
                    && final(store).posts@ == old(store).posts@)
            &&& (allowed && wants_ban && !has_ban(old(store).community_bans@, community_id, person_id)
                ==> (r is Ok) && has_ban(final(store).community_bans@, community_id, person_id)
                    && !has_follower(final(store).followers@, community_id, person_id))
            &&& (allowed && !wants_ban && !has_ban(old(store).community_bans@, community_id, person_id)
                ==> r == Result::<(), ApiError>::Err(ApiError::CommunityUserAlreadyBanned)
                    && final(store).community_bans@ == old(store).community_bans@
                    && final(store).followers@ == old(store).followers@
                    && final(store).posts@ == old(store).posts@)
            &&& (allowed && !wants_ban && has_ban(old(store).community_bans@, community_id, person_id)
                ==> (r is Ok) && !has_ban(final(store).community_bans@, community_id, person_id)
                    && final(store).followers@ == old(store).followers@
                    && final(store).posts@ == old(store).posts@)
            &&& (allowed && wants_ban && !has_ban(old(store).community_bans@, community_id, person_id)
                && remove_data ==> forall|t: int|
                    0 <= t < old(store).posts@.len() && old(store).posts@[t].creator_id == person_id
                        && old(store).posts@[t].community_id == community_id
                        ==> (#[trigger] final(store).posts@[t]).removed)
            &&& (allowed && wants_ban && !has_ban(old(store).community_bans@, community_id, person_id)
                && !remove_data ==> final(store).posts@ == old(store).posts@)
        }),
{
    if !(is_admin || crate::store::has_moderator_seat(
        &store.moderators,
        community_id,
        mod_person_id,
    )) {
        return Err(ApiError::NotAModOrAdmin);
    }
    let ban_form = CommunityPersonBanForm { community_id, person_id };
    if wants_ban {
        if !ban(&mut store.community_bans, &ban_form) {
            return Err(ApiError::CommunityUserAlreadyBanned);
        }
        // A banned person also stops following the community.
        let follower_form = CommunityFollowerForm { community_id, person_id, pending: false };
        unfollow(&mut store.followers, &follower_form);
        if remove_data {
            update_removed_for_creator(&mut store.posts, person_id, community_id, true);
        }
        Ok(())
    } else {
        if !unban(&mut store.community_bans, &ban_form) {
            return Err(ApiError::CommunityUserAlreadyBanned);
        }
        Ok(())
    }
}

/// A moderator or admin grants or revokes a moderator seat; the
/// duplicate grant and the absent revocation are refused as the storage
/// layer does.
pub fn add_mod_to_community(
    store: &mut Store,
    mod_person_id: i32,
    is_admin: bool,
    person_id: i32,
    community_id: i32,
    added: bool,
) -> (r: Result<(), ApiError>)
    requires
        old(store).wf(),
    ensures
        final(store).wf(),
        final(store).persons@ == old(store).persons@,
        final(store).communities@ == old(store).communities@,
        final(store).posts@ == old(store).posts@,
        final(store).post_likes@ == old(store).post_likes@,
        final(store).followers@ == old(store).followers@,
        final(store).community_bans@ == old(store).community_bans@,
        final(store).dedup@ == old(store).dedup@,
        !(is_admin || has_moderator(old(store).moderators@, community_id, mod_person_id)) ==> r
            == Result::<(), ApiError>::Err(ApiError::NotAModOrAdmin)
            && final(store).moderators@ == old(store).moderators@,
        ({
            let allowed = is_admin || has_moderator(old(store).moderators@, community_id, mod_person_id);
            &&& (allowed && added && has_moderator(old(store).moderators@, community_id, person_id)
                ==> r == Result::<(), ApiError>::Err(ApiError::CommunityModeratorAlreadyExists)
                    && final(store).moderators@ == old(store).moderators@)
            &&& (allowed && added && !has_moderator(old(store).moderators@, community_id, person_id)
                ==> (r is Ok) && has_moderator(final(store).moderators@, community_id, person_id))
            &&& (allowed && !added && !has_moderator(old(store).moderators@, community_id, person_id)
                ==> r == Result::<(), ApiError>::Err(ApiError::CommunityModeratorAlreadyExists)
                    && final(store).moderators@ == old(store).moderators@)
            &&& (allowed && !added && has_moderator(old(store).moderators@, community_id, person_id)
                ==> (r is Ok) && !has_moderator(final(store).moderators@, community_id, person_id))
        }),
{
    if !(is_admin || crate::store::has_moderator_seat(
        &store.moderators,
        community_id,
        mod_person_id,
    )) {
        return Err(ApiError::NotAModOrAdmin);
    }
    let form = CommunityModeratorForm { community_id, person_id };
    if added {
        if !join(&mut store.moderators, &form) {
            return Err(ApiError::CommunityModeratorAlreadyExists);
        }
        Ok(())
    } else {
        if !leave(&mut store.moderators, &form) {
            return Err(ApiError::CommunityModeratorAlreadyExists);
        }
        Ok(())
    }
}

} // verus!

verus! {

/// Creates a local community: validates the name and the texts against
/// the eager filter, refuses a duplicate, mints the actor endpoint
/// URLs, generates nothing itself — the key pair is handed in — and
/// makes the creator the first moderator and follower.
///
/// Returns the new community's id.
pub fn create_community(
    store: &mut Store,
    name: &str,
    title: &str,
    description: &Option<String>,
    nsfw: bool,
    icon: Option<String>,
    banner: Option<String>,
    creator_id: i32,
    private_key: String,
    public_key: String,
    protocol_and_hostname: &str,
    local_domain: &str,
    now: i64,
    denylist: &Vec<String>,
) -> (r: Result<i32, ApiError>)
    requires
        old(store).wf(),
        old(store).next_community_id < i32::MAX,
    ensures
        final(store).wf(),
        final(store).persons@ == old(store).persons@,
        final(store).posts@ == old(store).posts@,
        final(store).post_likes@ == old(store).post_likes@,
        final(store).community_bans@ == old(store).community_bans@,
        final(store).dedup@ == old(store).dedup@,
        ({
            let slurred = contains_any(name@, denylist.deep_view()) || contains_any(
                title@,
                denylist.deep_view(),
            ) || (match *description {
                Some(d) => contains_any(d@, denylist.deep_view()),
                None => false,
            });
            let endpoint = protocol_and_hostname@ + "/"@ + spec_endpoint_tag(
                EndpointType::Community,
            ) + "/"@ + name@;
            let taken = has_community_name(old(store).communities@, name@) || has_community_actor(
                old(store).communities@,
                endpoint,
            );
            &&& (slurred ==> r == Result::<i32, ApiError>::Err(ApiError::Slurs)
                && *final(store) == *old(store))
            &&& (!slurred && !spec_valid_community_name(name@) ==> r == Result::<i32, ApiError>::Err(
                ApiError::InvalidCommunityName,
            ) && *final(store) == *old(store))
            &&& (!slurred && spec_valid_community_name(name@) && taken ==> r == Result::<
                i32,
                ApiError,
            >::Err(ApiError::CommunityAlreadyExists) && *final(store) == *old(store))
            &&& (!slurred && spec_valid_community_name(name@) && !taken ==> {
                let id = old(store).next_community_id;
                &&& r == Result::<i32, ApiError>::Ok(id)
                &&& final(store).next_community_id == id + 1
                &&& final(store).communities@.len() == old(store).communities@.len() + 1
                &&& final(store).communities@.drop_last() == old(store).communities@
                &&& ({
                    let c = final(store).communities@.last();
                    &&& c.id == id
                    &&& c.name@ == name@
                    &&& c.title@ == title@
                    &&& c.creator_id == creator_id
                    &&& !c.removed
                    &&& !c.deleted
                    &&& c.nsfw == nsfw
                    &&& c.actor_id.full@ == endpoint
                    &&& c.actor_id.domain@ == local_domain@
                    &&& c.local
                    &&& c.published == now
                    &&& c.followers_url@ == endpoint + "/followers"@
                    &&& c.inbox_url@ == endpoint + "/inbox"@
                })
                &&& has_moderator(final(store).moderators@, id, creator_id)
                &&& has_follower(final(store).followers@, id, creator_id)
            })
        }),
{
    if contains_any_word(name, denylist) {
        return Err(ApiError::Slurs);
    }
    if contains_any_word(title, denylist) {
        return Err(ApiError::Slurs);
    }
    match description {
        Some(d) => {
            if contains_any_word(d.as_str(), denylist) {
                return Err(ApiError::Slurs);
            }
        },
        None => {},
    }
    if !is_valid_community_name(name) {
        return Err(ApiError::InvalidCommunityName);
    }
    let endpoint = generate_apub_endpoint(&EndpointType::Community, name, protocol_and_hostname);
    let actor_id = crate::ids::ObjectId { full: endpoint, domain: String::from_str(local_domain) };
    if find_community_by_name(&store.communities, name).is_some() {
        return Err(ApiError::CommunityAlreadyExists);
    }
    if crate::store::find_community_by_actor(&store.communities, &actor_id).is_some() {
        return Err(ApiError::CommunityAlreadyExists);
    }
    let followers_url = generate_followers_url(actor_id.full.as_str());
    let inbox_url = generate_inbox_url(actor_id.full.as_str());
    let shared_inbox_url = generate_shared_inbox_url(protocol_and_hostname);
    let row = crate::community::Community {
        id: 0,
        name: String::from_str(name),
        title: String::from_str(title),
        description: crate::person::clone_opt_string(description),
        creator_id,
        removed: false,
        published: now,
        updated: None,
        deleted: false,
        nsfw,
        actor_id,
        local: true,
        private_key: Some(private_key),
        public_key: Some(public_key),
        last_refreshed_at: now,
        icon,
        banner,
        followers_url,
        inbox_url,
        shared_inbox_url: Some(shared_inbox_url),
    };
    let id = crate::store::insert_community(&mut store.communities, &mut store.next_community_id, row);
    let moderator_form = CommunityModeratorForm { community_id: id, person_id: creator_id };
    join(&mut store.moderators, &moderator_form);
    let follower_form = CommunityFollowerForm {
        community_id: id,
        person_id: creator_id,
        pending: false,
    };
    follow(&mut store.followers, &follower_form);
    Ok(id)
}

} // verus!

verus! {

/// A moderator edits a community's presentation: title, description,
/// icon, banner and the adult flag. The name, the identity and the keys
/// never change.
pub fn edit_community(
    store: &mut Store,
    person_id: i32,
    community_id: i32,
    title: &str,
    description: &Option<String>,
    icon: Option<String>,
    banner: Option<String>,
    nsfw: bool,
    now: i64,
    denylist: &Vec<String>,
) -> (r: Result<(), ApiError>)
    requires
        old(store).wf(),
    ensures
        final(store).wf(),
        final(store).persons@ == old(store).persons@,
        final(store).posts@ == old(store).posts@,
        final(store).post_likes@ == old(store).post_likes@,
        final(store).followers@ == old(store).followers@,
        final(store).community_bans@ == old(store).community_bans@,
        final(store).moderators@ == old(store).moderators@,
        final(store).dedup@ == old(store).dedup@,
        ({
            let slurred = contains_any(title@, denylist.deep_view()) || (match *description {
                Some(d) => contains_any(d@, denylist.deep_view()),
                None => false,
            });
            &&& (slurred ==> r == Result::<(), ApiError>::Err(ApiError::Slurs)
                && final(store).communities@ == old(store).communities@)
            &&& (!slurred && !has_moderator(old(store).moderators@, community_id, person_id) ==> r
                == Result::<(), ApiError>::Err(ApiError::NotAModerator)
                && final(store).communities@ == old(store).communities@)
            &&& (!slurred && has_moderator(old(store).moderators@, community_id, person_id)
                && !has_community_id(old(store).communities@, community_id) ==> r == Result::<
                (),
                ApiError,
            >::Err(ApiError::CouldntFindCommunity) && final(store).communities@ == old(store).communities@)
            &&& (!slurred && has_moderator(old(store).moderators@, community_id, person_id)
                && has_community_id(old(store).communities@, community_id) ==> {
                let cs = old(store).communities@;
                let i = community_index_by_id(cs, community_id);
                let c = final(store).communities@[i];
                &&& (r is Ok)
                &&& final(store).communities@.len() == cs.len()
                &&& (forall|t: int| 0 <= t < cs.len() && t != i ==> final(store).communities@[t] == cs[t])
                &&& c.title@ == title@
                &&& c.description == *description
                &&& c.icon == icon
                &&& c.banner == banner
                &&& c.nsfw == nsfw
                &&& c.updated == Some(now)
                &&& c.id == cs[i].id
                &&& c.name@ == cs[i].name@
                &&& c.actor_id == cs[i].actor_id
                &&& c.creator_id == cs[i].creator_id
                &&& c.local == cs[i].local
                &&& c.removed == cs[i].removed
                &&& c.deleted == cs[i].deleted
            })
        }),
{
    if contains_any_word(title, denylist) {
        return Err(ApiError::Slurs);
    }
    match description {
        Some(d) => {
            if contains_any_word(d.as_str(), denylist) {
                return Err(ApiError::Slurs);
            }
        },
        None => {},
    }
    if !crate::store::has_moderator_seat(&store.moderators, community_id, person_id) {
        return Err(ApiError::NotAModerator);
    }
    let i = match find_community_by_id(&store.communities, community_id) {
        Some(i) => i,
        None => {
            return Err(ApiError::CouldntFindCommunity);
        },
    };
    proof {
        lemma_community_id_index_unique(
            old(store).communities@,
            old(store).next_community_id,
            community_id,
            i as int,
        );
    }
    let mut row = store.communities[i].clone();
    row.title = String::from_str(title);
    row.description = crate::person::clone_opt_string(description);
    row.icon = icon;
    row.banner = banner;
    row.nsfw = nsfw;
    row.updated = Some(now);
    crate::store::replace_community(&mut store.communities, i, row);
    Ok(())
}

/// The creator deletes their community, or takes the deletion back.
pub fn delete_community(
    store: &mut Store,
    person_id: i32,
    community_id: i32,
    deleted: bool,
) -> (r: Result<(), ApiError>)
    requires
        old(store).wf(),
    ensures
        final(store).wf(),
        final(store).persons@ == old(store).persons@,
        final(store).posts@ == old(store).posts@,
        final(store).post_likes@ == old(store).post_likes@,
        final(store).followers@ == old(store).followers@,
        final(store).community_bans@ == old(store).community_bans@,
        final(store).moderators@ == old(store).moderators@,
        final(store).dedup@ == old(store).dedup@,
        !has_community_id(old(store).communities@, community_id) ==> r == Result::<
            (),
            ApiError,
        >::Err(ApiError::CouldntFindCommunity) && final(store).communities@ == old(store).communities@,
        ({
            let cs = old(store).communities@;
            let i = community_index_by_id(cs, community_id);
            has_community_id(cs, community_id) ==> {
                &&& (cs[i].creator_id != person_id ==> r == Result::<(), ApiError>::Err(
                    ApiError::NoCommunityEditAllowed,
                ) && final(store).communities@ == cs)
                &&& (cs[i].creator_id == person_id ==> (r is Ok) && final(store).communities@
                    == cs.update(i, (Community { deleted, ..cs[i] })))
            }
        }),
{
    let i = match find_community_by_id(&store.communities, community_id) {
        Some(i) => i,
        None => {
            return Err(ApiError::CouldntFindCommunity);
        },
    };
    proof {
        lemma_community_id_index_unique(
            old(store).communities@,
            old(store).next_community_id,
            community_id,
            i as int,
        );
    }
    if store.communities[i].creator_id != person_id {
        return Err(ApiError::NoCommunityEditAllowed);
    }
    let mut row = store.communities[i].clone();
    row.deleted = deleted;
    crate::store::replace_community(&mut store.communities, i, row);
    Ok(())
}

/// An admin removes a community from the site, or restores it.
pub fn remove_community(
    store: &mut Store,
    is_admin: bool,
    community_id: i32,
    removed: bool,
) -> (r: Result<(), ApiError>)
    requires
        old(store).wf(),
    ensures
        final(store).wf(),
        final(store).persons@ == old(store).persons@,
        final(store).posts@ == old(store).posts@,
        final(store).post_likes@ == old(store).post_likes@,
        final(store).followers@ == old(store).followers@,
        final(store).community_bans@ == old(store).community_bans@,
        final(store).moderators@ == old(store).moderators@,
        final(store).dedup@ == old(store).dedup@,
        !is_admin ==> r == Result::<(), ApiError>::Err(ApiError::NotAnAdmin) && final(store).communities@ == old(store).communities@,
        is_admin && !has_community_id(old(store).communities@, community_id) ==> r == Result::<
            (),
            ApiError,
        >::Err(ApiError::CouldntFindCommunity) && final(store).communities@ == old(store).communities@,
        ({
            let cs = old(store).communities@;
            let i = community_index_by_id(cs, community_id);
            is_admin && has_community_id(cs, community_id) ==> (r is Ok) && final(store).communities@ == cs.update(i, (Community { removed, ..cs[i] }))
        }),
{
    if !is_admin {
        return Err(ApiError::NotAnAdmin);
    }
    let i = match find_community_by_id(&store.communities, community_id) {
        Some(i) => i,
        None => {
            return Err(ApiError::CouldntFindCommunity);
        },
    };
    proof {
        lemma_community_id_index_unique(
            old(store).communities@,
            old(store).next_community_id,
            community_id,
            i as int,
        );
    }
    let mut row = store.communities[i].clone();
    row.removed = removed;
    crate::store::replace_community(&mut store.communities, i, row);
    Ok(())
}

} // verus!

verus! {

/// The creator, or an admin, hands a community to a new owner. The new
/// owner must already hold a moderator seat; the seats are then granted
/// anew with the new owner first, so seat order shows ownership. No
/// seat is gained or lost.
pub fn transfer_community(
    store: &mut Store,
    person_id: i32,
    is_admin: bool,
    community_id: i32,
    new_creator: i32,
) -> (r: Result<(), ApiError>)
    requires
        old(store).wf(),
    ensures
        final(store).wf(),
        final(store).persons@ == old(store).persons@,
        final(store).posts@ == old(store).posts@,
        final(store).post_likes@ == old(store).post_likes@,
        final(store).followers@ == old(store).followers@,
        final(store).community_bans@ == old(store).community_bans@,
        final(store).dedup@ == old(store).dedup@,
        !has_community_id(old(store).communities@, community_id) ==> r == Result::<
            (),
            ApiError,
        >::Err(ApiError::CouldntFindCommunity) && final(store).communities@ == old(
            store,
        ).communities@ && final(store).moderators@ == old(store).moderators@,
        ({
            let cs = old(store).communities@;
            let i = community_index_by_id(cs, community_id);
            has_community_id(cs, community_id) ==> {
                &&& (cs[i].creator_id != person_id && !is_admin ==> r == Result::<(), ApiError>::Err(
                    ApiError::NotAnAdmin,
                ) && final(store).communities@ == cs && final(store).moderators@ == old(
                    store,
                ).moderators@)
                &&& ((cs[i].creator_id == person_id || is_admin) && !has_moderator(
                    old(store).moderators@,
                    community_id,
                    new_creator,
                ) ==> r == Result::<(), ApiError>::Err(ApiError::CouldntUpdateCommunity)
                    && final(store).communities@ == cs && final(store).moderators@ == old(
                    store,
                ).moderators@)
                &&& ((cs[i].creator_id == person_id || is_admin) && has_moderator(
                    old(store).moderators@,
                    community_id,
                    new_creator,
                ) ==> {
                    &&& (r is Ok)
                    &&& final(store).communities@ == cs.update(
                        i,
                        (Community { creator_id: new_creator, ..cs[i] }),
                    )
                    &&& (forall|p: i32|
                        has_moderator(final(store).moderators@, community_id, p) == has_moderator(
                            old(store).moderators@,
                            community_id,
                            p,
                        ))
                    &&& (forall|c2: i32, p: i32|
                        c2 != community_id ==> has_moderator(final(store).moderators@, c2, p)
                            == has_moderator(old(store).moderators@, c2, p))
                })
            }
        }),
{
    let i = match find_community_by_id(&store.communities, community_id) {
        Some(i) => i,
        None => {
            return Err(ApiError::CouldntFindCommunity);
        },
    };
    proof {
        lemma_community_id_index_unique(
            old(store).communities@,
            old(store).next_community_id,
            community_id,
            i as int,
        );
    }
    if store.communities[i].creator_id != person_id && !is_admin {
        return Err(ApiError::NotAnAdmin);
    }
    let mut seats = crate::store::moderator_ids_for_community(&store.moderators, community_id);
    if !promote_to_front(&mut seats, new_creator) {
        return Err(ApiError::CouldntUpdateCommunity);
    }
    proof {
        assert(seats@.contains(new_creator) == has_moderator(
            old(store).moderators@,
            community_id,
            new_creator,
        ));
        assert forall|p: i32| seats@.contains(p) == has_moderator(
            old(store).moderators@,
            community_id,
            p,
        ) by {
            let ghost pre = old(store).moderators@;
            if seats@.contains(p) {
                let w = choose|w: int| 0 <= w < seats@.len() && #[trigger] seats@[w] == p;
            }
        }
        assert(seats@.contains(new_creator));
    }
    let mut row = store.communities[i].clone();
    row.creator_id = new_creator;
    crate::store::replace_community(&mut store.communities, i, row);
    crate::store::delete_for_community(&mut store.moderators, community_id);
    let ghost cleared = store.moderators@;
    let ghost cs_after = store.communities@;
    let mut k: usize = 0;
    while k < seats.len()
        invariant
            0 <= k <= seats@.len(),
            crate::store::moderators_unique(store.moderators@),
            store.persons@ == old(store).persons@,
            store.next_person_id == old(store).next_person_id,
            store.communities@ == cs_after,
            store.next_community_id == old(store).next_community_id,
            crate::store::communities_unique(store.communities@, store.next_community_id),
            crate::store::persons_unique(store.persons@, store.next_person_id),
            store.posts@ == old(store).posts@,
            store.next_post_id == old(store).next_post_id,
            crate::store::posts_unique(store.posts@, store.next_post_id),
            store.post_likes@ == old(store).post_likes@,
            crate::store::likes_unique(store.post_likes@),
            store.followers@ == old(store).followers@,
            crate::store::followers_unique(store.followers@),
            store.community_bans@ == old(store).community_bans@,
            crate::store::bans_unique(store.community_bans@),
            store.dedup@ == old(store).dedup@,
            crate::store::dedup_unique(store.dedup@),
            forall|p: i32|
                has_moderator(store.moderators@, community_id, p) == seats@.subrange(
                    0,
                    k as int,
                ).contains(p),
            forall|c2: i32, p: i32|
                c2 != community_id ==> has_moderator(store.moderators@, c2, p) == has_moderator(
                    cleared,
                    c2,
                    p,
                ),
        decreases seats@.len() - k,
    {
        let ghost before = store.moderators@;
        let form = CommunityModeratorForm { community_id, person_id: seats[k] };
        join(&mut store.moderators, &form);
        proof {
            let s0 = seats@.subrange(0, k as int);
            let s1 = seats@.subrange(0, k as int + 1);
            assert(s1 =~= s0.push(seats@[k as int]));
            assert forall|p: i32| has_moderator(store.moderators@, community_id, p) == s1.contains(
                p,
            ) by {
                if s1.contains(p) {
                    let w = choose|w: int| 0 <= w < s1.len() && #[trigger] s1[w] == p;
                    if w < k as int {
                        assert(s0[w] == p);
                        assert(s0.contains(p));
                        assert(has_moderator(before, community_id, p));
                    } else {
                        assert(p == seats@[k as int]);
                    }
                    assert(has_moderator(store.moderators@, community_id, p));
                }
                if has_moderator(store.moderators@, community_id, p) {
                    if p == seats@[k as int] {
                        assert(s1[k as int] == p);
                        assert(s1.contains(p));
                    } else {
                        assert(has_moderator(before, community_id, p));
                        assert(s0.contains(p));
                        let w = choose|w: int| 0 <= w < s0.len() && #[trigger] s0[w] == p;
                        assert(s1[w] == p);
                        assert(s1.contains(p));
                    }
                }
            }
        }
        k = k + 1;
    }
    proof {
        assert(seats@.subrange(0, seats@.len() as int) =~= seats@);
        assert forall|p: i32| has_moderator(store.moderators@, community_id, p) == has_moderator(
            old(store).moderators@,
            community_id,
            p,
        ) by {
            assert(has_moderator(store.moderators@, community_id, p) == seats@.contains(p));
        }
    }
    Ok(())
}

} // verus!
