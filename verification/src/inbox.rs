//! The inbound federation pipeline for community inboxes.
//!
//! A delivery is processed in strict order: resolve and trust the sender,
//! absorb replays, check the addressing, route by activity type to the
//! follow handshake or the object translator, and decide whether the
//! accepted activity is announced to the community's followers. The
//! pipeline is a transition over the storage model; the HTTP, crypto and
//! network-fetch edges hand in their results as plain values.

use vstd::prelude::*;
use crate::community::{Community, CommunityFollowerForm};
use crate::ids::ObjectId;
use crate::person::Person;
use crate::post::{PageObject, Post, PostForm, PostLikeForm};
use crate::store::{
    Store, dedup_has, dedup_contains, dedup_insert, dedup_mark_forwarded, find_community_by_actor,
    find_community_by_name, find_person_by_actor, find_post_by_ap_id, follow, unfollow, like,
    remove_like, create_post, update_post, set_post_deleted, has_ban, has_community_actor,
    has_community_name, has_like, has_person_actor, has_post_ap_id, has_follower, keep_bool,
};
use crate::text::{censor, contains_any, contains_any_word, remove_slurs, str_eq};

verus! {

/// The closed set of activity types a community inbox accepts. Any other
/// type tag fails deserialization at the boundary and never reaches the
/// router.
#[derive(Clone, Copy, PartialEq, Eq, Structural)]
pub enum CommunityValidTypes {
    /// A follow request from a person.
    Follow,
    /// An unfollow, or the withdrawal of a nested activity.
    Undo,
    /// A post is created.
    Create,
    /// A post is edited.
    Update,
    /// An upvote.
    Like,
    /// A downvote.
    Dislike,
    /// A post deleted by its creator.
    Delete,
    /// A removal by a remote moderator; not trusted, so ignored.
    Remove,
}

/// An activity nested inside an `Undo` envelope.
pub struct InnerActivity {
    pub id: ObjectId,
    pub actor: ObjectId,
    pub kind: CommunityValidTypes,
    /// The identifier the inner activity acted on: the community for a
    /// follow, the post for a vote or a delete.
    pub object: ObjectId,
}

/// The payload of an envelope.
pub enum ActivityObject {
    /// A bare identifier: the community a follow asks for, or the post a
    /// vote or a delete names.
    Reference(ObjectId),
    /// A page carrying a post.
    Page(PageObject),
    /// A nested activity, inside an undo.
    Activity(InnerActivity),
}

/// An incoming activity envelope: an opaque, semantically tagged message.
/// Its `id` is minted by the sending server and must be globally unique;
/// a replay of a previously seen id is absorbed without effect.
pub struct Envelope {
    pub id: ObjectId,
    pub actor: ObjectId,
    pub kind: CommunityValidTypes,
    pub to: Vec<ObjectId>,
    pub cc: Vec<ObjectId>,
    pub object: ActivityObject,
}

/// Everything that can go wrong with a delivery, as the federation peer
/// is allowed to see it.
#[derive(Clone, Copy, Debug, PartialEq, Eq, Structural)]
pub enum InboxError {
    /// The signature does not verify against the claimed actor's key.
    SignatureInvalid,
    /// The claimed actor cannot be resolved.
    ActorUnresolvable,
    /// The addressing names neither this community nor, where required,
    /// the public collection.
    NotAddressedHere,
    /// The activity id claims to be ours; a remote node must not mint
    /// ids under this node's domain.
    ForeignActivity,
    /// An enclosed object's own identifier lives under a domain the
    /// delivery does not vouch for.
    DomainMismatch,
    /// The sender or the creator is banned where the activity lands.
    ActorBanned,
    /// A disallowed word where the filter blocks creation outright.
    ContainsSlurs,
    /// A collaborator failed or a reference could not be satisfied; the
    /// sender may retry.
    ProcessingFailure,
}

/// What a delivery came to.
#[derive(Clone, Copy, Debug, PartialEq, Eq, Structural)]
pub enum InboxOutcome {
    /// Processed; `announced` says whether it was handed to the announce
    /// collaborator.
    Accepted { announced: bool },
    /// A replay of a known activity id: success with no further work.
    AlreadySeen,
    /// The sender or creator is banned: acknowledged to stop retries,
    /// but nothing was changed.
    Banned,
    /// Refused; the error says why.
    Rejected(InboxError),
}

/// The HTTP status a delivery outcome answers with: accepted, replayed
/// and banned deliveries are acknowledged, policy violations are client
/// errors, collaborator failures ask the sender to retry.
pub open spec fn spec_http_status(o: InboxOutcome) -> u16 {
    match o {
        InboxOutcome::Accepted { .. } => 200,
        InboxOutcome::AlreadySeen => 200,
        InboxOutcome::Banned => 200,
        InboxOutcome::Rejected(e) => if e == InboxError::ProcessingFailure {
            500
        } else {
            400
        },
    }
}

/// The status line of the HTTP answer for an outcome.
pub fn http_status(o: &InboxOutcome) -> (s: u16)
    ensures
        s == spec_http_status(*o),
{
    match o {
        InboxOutcome::Accepted { .. } => 200,
        InboxOutcome::AlreadySeen => 200,
        InboxOutcome::Banned => 200,
        InboxOutcome::Rejected(e) => if *e == InboxError::ProcessingFailure {
            500
        } else {
            400
        },
    }
}

/// What the pipeline asks the outbound collaborators to do after a
/// delivery is processed.
pub enum OutboundAction {
    /// Deliver an accept of the given follow activity to the sender's
    /// inbox.
    SendAccept { inbox: String, follow_id: ObjectId },
    /// Hand the activity to the community's announce collaborator, which
    /// delivers it to every follower inbox.
    Announce { community_id: i32, activity_id: ObjectId },
}

/// The identifier of the public collection: an activity addressed to it
/// is meant for everyone.
pub open spec fn public_marker() -> Seq<char> {
    "https://www.w3.org/ns/activitystreams#Public"@
}

/// True when the addressing lists of `env` name `target`.
pub open spec fn addressed_to(env: Envelope, target: Seq<char>) -> bool {
    (exists|i: int| 0 <= i < env.to@.len() && (#[trigger] env.to@[i]).full@ == target) || (exists|
        i: int,
    | 0 <= i < env.cc@.len() && (#[trigger] env.cc@[i]).full@ == target)
}

/// True when the envelope's `to` or `cc` names `target`.
pub fn envelope_addressed_to(env: &Envelope, target: &str) -> (r: bool)
    ensures
        r == addressed_to(*env, target@),
{
    let mut i: usize = 0;
    while i < env.to.len()
        invariant
            0 <= i <= env.to@.len(),
            forall|t: int| 0 <= t < i ==> (#[trigger] env.to@[t]).full@ != target@,
        decreases env.to@.len() - i,
    {
        if str_eq(env.to[i].full.as_str(), target) {
            return true;
        }
        i = i + 1;
    }
    let mut j: usize = 0;
    while j < env.cc.len()
        invariant
            0 <= j <= env.cc@.len(),
            forall|t: int| 0 <= t < j ==> (#[trigger] env.cc@[t]).full@ != target@,
        decreases env.cc@.len() - j,
    {
        if str_eq(env.cc[j].full.as_str(), target) {
            return true;
        }
        j = j + 1;
    }
    false
}

/// True when the envelope is addressed to the public collection.
pub fn is_addressed_to_public(env: &Envelope) -> (r: bool)
    ensures
        r == addressed_to(*env, public_marker()),
{
    envelope_addressed_to(env, "https://www.w3.org/ns/activitystreams#Public")
}

} // verus!

verus! {

/// The index of the person whose actor identifier is `actor`; meaningful
/// only when such a person exists and actor identifiers are unique.
pub open spec fn person_index(ps: Seq<Person>, actor: Seq<char>) -> int {
    choose|i: int| 0 <= i < ps.len() && (#[trigger] ps[i]).actor_id.full@ == actor
}

/// The index of the community named `name`; meaningful only when such a
/// community exists and names are unique.
pub open spec fn community_index_by_name(cs: Seq<Community>, name: Seq<char>) -> int {
    choose|i: int| 0 <= i < cs.len() && (#[trigger] cs[i]).name@ == name
}

/// The index of the community whose actor identifier is `actor`.
pub open spec fn community_index_by_actor(cs: Seq<Community>, actor: Seq<char>) -> int {
    choose|i: int| 0 <= i < cs.len() && (#[trigger] cs[i]).actor_id.full@ == actor
}

/// The index of the post whose object identifier is `ap_id`.
pub open spec fn post_index_by_ap_id(ts: Seq<Post>, ap_id: Seq<char>) -> int {
    choose|i: int| 0 <= i < ts.len() && (#[trigger] ts[i]).ap_id.full@ == ap_id
}

/// With unique actor identifiers, any index holding `actor` is the one
/// `person_index` names.
pub proof fn lemma_person_index_unique(ps: Seq<Person>, actor: Seq<char>, i: int)
    requires
        crate::store::person_actors_unique(ps),
        0 <= i < ps.len(),
        ps[i].actor_id.full@ == actor,
    ensures
        person_index(ps, actor) == i,
        has_person_actor(ps, actor),
{
    assert(has_person_actor(ps, actor));
    let j = person_index(ps, actor);
    if i < j {
        assert(ps[i].actor_id.full@ != ps[j].actor_id.full@);
    } else if j < i {
        assert(ps[j].actor_id.full@ != ps[i].actor_id.full@);
    }
}

/// With unique names, any index holding `name` is the one
/// `community_index_by_name` names.
pub proof fn lemma_community_name_index_unique(cs: Seq<Community>, name: Seq<char>, i: int)
    requires
        crate::store::community_names_unique(cs),
        0 <= i < cs.len(),
        cs[i].name@ == name,
    ensures
        community_index_by_name(cs, name) == i,
        has_community_name(cs, name),
{
    assert(has_community_name(cs, name));
    let j = community_index_by_name(cs, name);
    if i < j {
        assert(cs[i].name@ != cs[j].name@);
    } else if j < i {
        assert(cs[j].name@ != cs[i].name@);
    }
}

/// With unique actor identifiers, any index holding `actor` is the one
/// `community_index_by_actor` names.
pub proof fn lemma_community_actor_index_unique(cs: Seq<Community>, actor: Seq<char>, i: int)
    requires
        crate::store::community_actors_unique(cs),
        0 <= i < cs.len(),
        cs[i].actor_id.full@ == actor,
    ensures
        community_index_by_actor(cs, actor) == i,
        has_community_actor(cs, actor),
{
    assert(has_community_actor(cs, actor));
    let j = community_index_by_actor(cs, actor);
    if i < j {
        assert(cs[i].actor_id.full@ != cs[j].actor_id.full@);
    } else if j < i {
        assert(cs[j].actor_id.full@ != cs[i].actor_id.full@);
    }
}

} // verus!

verus! {

/// What the link-metadata fetcher returned for a page's url: titles and
/// preview markup from the link, and a cached thumbnail.
pub struct EmbedMeta {
    pub title: Option<String>,
    pub description: Option<String>,
    pub html: Option<String>,
    pub thumbnail: Option<String>,
}

/// The first position of `tos`, at or after `k`, naming a community of
/// `cs`; `None` when none does.
pub open spec fn first_community_to(cs: Seq<Community>, tos: Seq<ObjectId>, k: int) -> Option<int>
    decreases tos.len() - k,
{
    if k < 0 || k >= tos.len() {
        None
    } else if has_community_actor(cs, tos[k].full@) {
        Some(k)
    } else {
        first_community_to(cs, tos, k + 1)
    }
}

/// The community a page is addressed to: the first entry of its `to`
/// list that names a community.
pub fn get_to_community(cs: &Vec<Community>, tos: &Vec<ObjectId>) -> (r: Option<usize>)
    ensures
        match r {
            Some(c) => {
                &&& c < cs@.len()
                &&& (first_community_to(cs@, tos@, 0) is Some)
                &&& cs@[c as int].actor_id.full@ == tos@[first_community_to(
                    cs@,
                    tos@,
                    0,
                ).unwrap()].full@
            },
            None => first_community_to(cs@, tos@, 0) is None,
        },
{
    let mut k: usize = 0;
    while k < tos.len()
        invariant
            0 <= k <= tos@.len(),
            first_community_to(cs@, tos@, 0) == first_community_to(cs@, tos@, k as int),
        decreases tos@.len() - k,
    {
        match find_community_by_actor(cs, &tos[k]) {
            Some(c) => {
                assert(first_community_to(cs@, tos@, k as int) == Some(k as int));
                return Some(c);
            },
            None => {
                assert(first_community_to(cs@, tos@, k as int) == first_community_to(
                    cs@,
                    tos@,
                    k as int + 1,
                ));
            },
        }
        k = k + 1;
    }
    None
}

/// True when `form` is the translation of `page`: the creator resolved
/// by the attribution, the community taken from the addressing, the body
/// passed through the denylist filter, the embed fields taken from the
/// fetcher when a link was present, and nothing marked removed or
/// deleted. A translated post is never local.
pub open spec fn translated_post_form(
    form: PostForm,
    page: PageObject,
    persons: Seq<Person>,
    communities: Seq<Community>,
    embed: EmbedMeta,
    denylist: Seq<Seq<char>>,
    repl: Seq<char>,
) -> bool {
    let cr = persons[person_index(persons, page.attributed_to.full@)];
    let kt = first_community_to(communities, page.to@, 0).unwrap();
    let cm = communities[community_index_by_actor(communities, page.to@[kt].full@)];
    &&& form.name@ == page.name.unwrap()@
    &&& form.creator_id == cr.id
    &&& form.community_id == cm.id
    &&& (match page.body {
        Some(b) => (form.body is Some) && form.body.unwrap()@ == censor(b@, denylist, repl),
        None => form.body is None,
    })
    &&& (match form.url {
        Some(u) => (page.url is Some) && u@ == page.url.unwrap()@,
        None => page.url is None,
    })
    &&& form.nsfw == keep_bool(false, page.sensitive)
    &&& (match page.comments_enabled {
        Some(e) => form.locked == Some(!e),
        None => form.locked is None,
    })
    &&& (match page.stickied {
        Some(b) => form.stickied == Some(b),
        None => form.stickied == Some(false),
    })
    &&& form.published == page.published
    &&& form.updated == page.updated
    &&& form.removed is None
    &&& form.deleted is None
    &&& (form.ap_id is Some)
    &&& form.ap_id.unwrap() == page.ap_id
    &&& !form.local
    &&& (if page.url is Some {
        form.embed_title == embed.title && form.embed_description == embed.description
            && form.embed_html == embed.html && form.thumbnail_url == embed.thumbnail
    } else {
        (form.embed_title is None) && (form.embed_description is None) && (form.embed_html
            is None) && form.thumbnail_url == page.image_url
    })
}

/// The creator the page attributes itself to is banned from the site or
/// from the community the page is addressed to.
pub open spec fn page_creator_banned(
    page: PageObject,
    persons: Seq<Person>,
    communities: Seq<Community>,
    bans: Seq<crate::community::CommunityPersonBan>,
) -> bool {
    let cr = persons[person_index(persons, page.attributed_to.full@)];
    let kt = first_community_to(communities, page.to@, 0).unwrap();
    let cm = communities[community_index_by_actor(communities, page.to@[kt].full@)];
    cr.banned || has_ban(bans, cm.id, cr.id)
}

/// Translates a page into the form a post row is written from.
///
/// The checks run in a fixed order and the first failure wins: the
/// page's own identifier must live under `expected_domain`; the creator
/// and the addressed community must be known; a title must be present
/// and clean, where a disallowed word blocks the translation outright;
/// and a banned creator is refused. The body is not blocked but
/// filtered.
pub fn post_form_from_page(
    page: &PageObject,
    persons: &Vec<Person>,
    communities: &Vec<Community>,
    bans: &Vec<crate::community::CommunityPersonBan>,
    expected_domain: &str,
    embed: &EmbedMeta,
    denylist: &Vec<String>,
    repl: &str,
) -> (r: Result<PostForm, InboxError>)
    requires
        crate::store::person_actors_unique(persons@),
        crate::store::community_actors_unique(communities@),
    ensures
        page.ap_id.domain@ != expected_domain@ ==> r == Result::<PostForm, InboxError>::Err(
            InboxError::DomainMismatch,
        ),
        (r is Ok) ==> page.ap_id.domain@ == expected_domain@ && has_person_actor(
            persons@,
            page.attributed_to.full@,
        ) && (first_community_to(communities@, page.to@, 0) is Some) && (page.name is Some)
            && !contains_any(page.name.unwrap()@, denylist.deep_view()) && !page_creator_banned(
            *page,
            persons@,
            communities@,
            bans@,
        ) && translated_post_form(
            r.unwrap(),
            *page,
            persons@,
            communities@,
            *embed,
            denylist.deep_view(),
            repl@,
        ),
        page.ap_id.domain@ == expected_domain@ && !has_person_actor(
            persons@,
            page.attributed_to.full@,
        ) ==> r == Result::<PostForm, InboxError>::Err(InboxError::ActorUnresolvable),
        page.ap_id.domain@ == expected_domain@ && has_person_actor(
            persons@,
            page.attributed_to.full@,
        ) && (first_community_to(communities@, page.to@, 0) is None) ==> r == Result::<
            PostForm,
            InboxError,
        >::Err(InboxError::ProcessingFailure),
        page.ap_id.domain@ == expected_domain@ && has_person_actor(
            persons@,
            page.attributed_to.full@,
        ) && (first_community_to(communities@, page.to@, 0) is Some) && (page.name is None) ==> r
            == Result::<PostForm, InboxError>::Err(InboxError::ProcessingFailure),
        page.ap_id.domain@ == expected_domain@ && has_person_actor(
            persons@,
            page.attributed_to.full@,
        ) && (first_community_to(communities@, page.to@, 0) is Some) && (page.name is Some)
            && contains_any(page.name.unwrap()@, denylist.deep_view()) ==> r == Result::<
            PostForm,
            InboxError,
        >::Err(InboxError::ContainsSlurs),
        page.ap_id.domain@ == expected_domain@ && has_person_actor(
            persons@,
            page.attributed_to.full@,
        ) && (first_community_to(communities@, page.to@, 0) is Some) && (page.name is Some)
            && !contains_any(page.name.unwrap()@, denylist.deep_view()) && page_creator_banned(
            *page,
            persons@,
            communities@,
            bans@,
        ) ==> r == Result::<PostForm, InboxError>::Err(InboxError::ActorBanned),
        page.ap_id.domain@ == expected_domain@ && has_person_actor(
            persons@,
            page.attributed_to.full@,
        ) && (first_community_to(communities@, page.to@, 0) is Some) && (page.name is Some)
            && !contains_any(page.name.unwrap()@, denylist.deep_view()) && !page_creator_banned(
            *page,
            persons@,
            communities@,
            bans@,
        ) ==> (r is Ok),
{
    if !str_eq(page.ap_id.domain.as_str(), expected_domain) {
        return Err(InboxError::DomainMismatch);
    }
    let cr_idx = match find_person_by_actor(persons, &page.attributed_to) {
        Some(i) => i,
        None => {
            return Err(InboxError::ActorUnresolvable);
        },
    };
    let cm_idx = match get_to_community(communities, &page.to) {
        Some(c) => c,
        None => {
            return Err(InboxError::ProcessingFailure);
        },
    };
    let name = match &page.name {
        Some(n) => n,
        None => {
            return Err(InboxError::ProcessingFailure);
        },
    };
    if contains_any_word(name.as_str(), denylist) {
        return Err(InboxError::ContainsSlurs);
    }
    let creator = &persons[cr_idx];
    let community = &communities[cm_idx];
    if creator.banned || crate::store::is_banned(bans, community.id, creator.id) {
        proof {
            lemma_creator_community(persons@, communities@, page, cr_idx as int, cm_idx as int);
        }
        return Err(InboxError::ActorBanned);
    }
    let body = match &page.body {
        Some(b) => Some(remove_slurs(b.as_str(), denylist, repl)),
        None => None,
    };
    let (embed_title, embed_description, embed_html, thumbnail_url): (
        Option<String>,
        Option<String>,
        Option<String>,
        Option<String>,
    ) = match &page.url {
        Some(_) => (
            crate::person::clone_opt_string(&embed.title),
            crate::person::clone_opt_string(&embed.description),
            crate::person::clone_opt_string(&embed.html),
            crate::person::clone_opt_string(&embed.thumbnail),
        ),
        None => (None, None, None, crate::person::clone_opt_string(&page.image_url)),
    };
    let form = PostForm {
        name: name.clone(),
        url: crate::person::clone_opt_string(&page.url),
        body,
        creator_id: creator.id,
        community_id: community.id,
        removed: None,
        locked: match page.comments_enabled {
            Some(e) => Some(!e),
            None => None,
        },
        published: page.published,
        updated: page.updated,
        deleted: None,
        nsfw: match page.sensitive {
            Some(b) => b,
            None => false,
        },
        stickied: match page.stickied {
            Some(b) => Some(b),
            None => Some(false),
        },
        embed_title,
        embed_description,
        embed_html,
        thumbnail_url,
        ap_id: Some(page.ap_id.clone()),
        local: false,
    };
    proof {
        lemma_creator_community(persons@, communities@, page, cr_idx as int, cm_idx as int);
    }
    Ok(form)
}

/// Ties the indices the lookups returned to the indices the translation
/// contract speaks of.
proof fn lemma_creator_community(
    persons: Seq<Person>,
    communities: Seq<Community>,
    page: &PageObject,
    cr_idx: int,
    cm_idx: int,
)
    requires
        crate::store::person_actors_unique(persons),
        crate::store::community_actors_unique(communities),
        0 <= cr_idx < persons.len(),
        persons[cr_idx].actor_id.full@ == page.attributed_to.full@,
        0 <= cm_idx < communities.len(),
        (first_community_to(communities, page.to@, 0) is Some),
        communities[cm_idx].actor_id.full@ == page.to@[first_community_to(
            communities,
            page.to@,
            0,
        ).unwrap()].full@,
    ensures
        person_index(persons, page.attributed_to.full@) == cr_idx,
        community_index_by_actor(
            communities,
            page.to@[first_community_to(communities, page.to@, 0).unwrap()].full@,
        ) == cm_idx,
{
    lemma_person_index_unique(persons, page.attributed_to.full@, cr_idx);
    lemma_community_actor_index_unique(
        communities,
        page.to@[first_community_to(communities, page.to@, 0).unwrap()].full@,
        cm_idx,
    );
}

} // verus!

verus! {

/// One inbound delivery, with the results of the outside edges already
/// in hand: the HTTP layer supplies the path and domains, the crypto
/// layer the signature verdict, the link fetcher the embed metadata.
pub struct DeliveryRequest {
    pub envelope: Envelope,
    /// The name of the community whose inbox the HTTP path names.
    pub path_community_name: String,
    /// The host this node serves; an activity id under it is foreign
    /// forgery.
    pub local_domain: String,
    /// The domain the delivery vouches for: an enclosed object's own
    /// identifier must live under it.
    pub expected_domain: String,
    /// Whether the request's signature verifies against the claimed
    /// actor's resolved public key.
    pub signature_valid: bool,
    /// Seconds since the epoch, for publication defaults.
    pub now: i64,
    /// What the link-metadata fetcher returned for the enclosed page's
    /// link, where there was one.
    pub embed: EmbedMeta,
    /// The content denylist in force.
    pub denylist: Vec<String>,
    /// What a filtered word is replaced with.
    pub replacement: String,
}

/// The person record of the claimed sender; meaningful when the sender
/// resolves.
pub open spec fn sender_of(s: Store, req: DeliveryRequest) -> Person {
    s.persons@[person_index(s.persons@, req.envelope.actor.full@)]
}

/// The community record the delivery path names; meaningful when it
/// exists.
pub open spec fn target_community_of(s: Store, req: DeliveryRequest) -> Community {
    s.communities@[community_index_by_name(s.communities@, req.path_community_name@)]
}

/// The sender is banned from the site or from the target community.
pub open spec fn sender_banned(s: Store, req: DeliveryRequest) -> bool {
    sender_of(s, req).banned || has_ban(
        s.community_bans@,
        target_community_of(s, req).id,
        sender_of(s, req).id,
    )
}

/// Every check that stands before the router: the sender resolves and is
/// trusted, the activity id lives under the sender's domain, it was not
/// seen before, the path names a community the activity is addressed to,
/// and the id is not a forgery under this node's own domain.
pub open spec fn gates_pass(s: Store, req: DeliveryRequest) -> bool {
    &&& has_person_actor(s.persons@, req.envelope.actor.full@)
    &&& req.signature_valid
    &&& req.envelope.id.domain@ == req.envelope.actor.domain@
    &&& !dedup_has(s.dedup@, req.envelope.id.full@)
    &&& has_community_name(s.communities@, req.path_community_name@)
    &&& addressed_to(req.envelope, target_community_of(s, req).actor_id.full@)
    &&& req.envelope.id.domain@ != req.local_domain@
}

/// Whether an accepted envelope of this shape is announced to followers:
/// follow traffic and ignored remote removals are not, content activity
/// is.
pub open spec fn announces(env: Envelope) -> bool {
    match env.kind {
        CommunityValidTypes::Follow => false,
        CommunityValidTypes::Remove => false,
        CommunityValidTypes::Undo => match env.object {
            ActivityObject::Activity(inner) => inner.kind != CommunityValidTypes::Follow,
            _ => false,
        },
        _ => true,
    }
}

/// The translator accepts the page: its identifier domain is vouched
/// for, creator and community resolve, the title is present and clean,
/// and the creator is not banned where the page lands.
pub open spec fn translate_ok(s: Store, req: DeliveryRequest, page: PageObject) -> bool {
    &&& page.ap_id.domain@ == req.expected_domain@
    &&& has_person_actor(s.persons@, page.attributed_to.full@)
    &&& (first_community_to(s.communities@, page.to@, 0) is Some)
    &&& (page.name is Some)
    &&& !contains_any(page.name.unwrap()@, req.denylist.deep_view())
    &&& !page_creator_banned(page, s.persons@, s.communities@, s.community_bans@)
}

/// An activity nested in an undo that the router can act on: a vote or
/// a delete whose post is known.
pub open spec fn undo_inner_ok(s: Store, inner: InnerActivity) -> bool {
    match inner.kind {
        CommunityValidTypes::Like => has_post_ap_id(s.posts@, inner.object.full@),
        CommunityValidTypes::Dislike => has_post_ap_id(s.posts@, inner.object.full@),
        CommunityValidTypes::Delete => has_post_ap_id(s.posts@, inner.object.full@),
        _ => false,
    }
}

/// What it takes, past the gates and the ban check, for each activity
/// type to be accepted. Announced types also demand public addressing,
/// re-checked after their effects are applied.
pub open spec fn kind_accepts(s: Store, req: DeliveryRequest) -> bool {
    match req.envelope.kind {
        CommunityValidTypes::Follow => match req.envelope.object {
            ActivityObject::Reference(oid) => oid.full@ == target_community_of(
                s,
                req,
            ).actor_id.full@,
            _ => false,
        },
        CommunityValidTypes::Undo => match req.envelope.object {
            ActivityObject::Activity(inner) => if inner.kind == CommunityValidTypes::Follow {
                inner.id.domain@ == req.envelope.actor.domain@
            } else {
                undo_inner_ok(s, inner) && addressed_to(req.envelope, public_marker())
            },
            _ => false,
        },
        CommunityValidTypes::Create => match req.envelope.object {
            ActivityObject::Page(page) => translate_ok(s, req, page) && addressed_to(
                req.envelope,
                public_marker(),
            ),
            _ => false,
        },
        CommunityValidTypes::Update => match req.envelope.object {
            ActivityObject::Page(page) => translate_ok(s, req, page) && addressed_to(
                req.envelope,
                public_marker(),
            ),
            _ => false,
        },
        CommunityValidTypes::Like => match req.envelope.object {
            ActivityObject::Reference(oid) => has_post_ap_id(s.posts@, oid.full@) && addressed_to(
                req.envelope,
                public_marker(),
            ),
            _ => false,
        },
        CommunityValidTypes::Dislike => match req.envelope.object {
            ActivityObject::Reference(oid) => has_post_ap_id(s.posts@, oid.full@) && addressed_to(
                req.envelope,
                public_marker(),
            ),
            _ => false,
        },
        CommunityValidTypes::Delete => match req.envelope.object {
            ActivityObject::Reference(oid) => has_post_ap_id(s.posts@, oid.full@) && addressed_to(
                req.envelope,
                public_marker(),
            ),
            _ => false,
        },
        CommunityValidTypes::Remove => true,
    }
}

} // verus!

verus! {

/// Routes a trusted, first-seen, correctly addressed activity: re-checks
/// the sender's ban status, delegates to the follow handshake or the
/// object translator, and re-checks public addressing before asking for
/// an announce. Only follower, post and vote state is ever touched.
pub fn community_receive_message(
    store: &mut Store,
    req: &DeliveryRequest,
    p_idx: usize,
    c_idx: usize,
) -> (r: (InboxOutcome, Vec<OutboundAction>))
    requires
        old(store).wf(),
        old(store).next_post_id < i32::MAX,
        p_idx < old(store).persons@.len(),
        old(store).persons@[p_idx as int].actor_id.full@ == req.envelope.actor.full@,
        c_idx < old(store).communities@.len(),
        old(store).communities@[c_idx as int].name@ == req.path_community_name@,
    ensures
        final(store).wf(),
        final(store).persons@ == old(store).persons@,
        final(store).next_person_id == old(store).next_person_id,
        final(store).communities@ == old(store).communities@,
        final(store).next_community_id == old(store).next_community_id,
        final(store).moderators@ == old(store).moderators@,
        final(store).community_bans@ == old(store).community_bans@,
        final(store).dedup@ == old(store).dedup@,
        ({
            let p = old(store).persons@[p_idx as int];
            let c = old(store).communities@[c_idx as int];
            let banned = p.banned || has_ban(old(store).community_bans@, c.id, p.id);
            banned ==> r.0 == InboxOutcome::Banned && *final(store) == *old(store) && r.1@.len()
                == 0
        }),
        ({
            let p = old(store).persons@[p_idx as int];
            let c = old(store).communities@[c_idx as int];
            let banned = p.banned || has_ban(old(store).community_bans@, c.id, p.id);
            (r.0 is Accepted) == (!banned && kind_accepts(*old(store), *req))
        }),
        ((r.0 is Accepted) ==> r.0 == (InboxOutcome::Accepted {
            announced: announces(req.envelope),
        })),
        (!(r.0 is Accepted) ==> r.1@.len() == 0),
        (!(r.0 is Accepted) && r.0 != InboxOutcome::Rejected(InboxError::NotAddressedHere)
            ==> *final(store) == *old(store)),
        ({
            let p = old(store).persons@[p_idx as int];
            let c = old(store).communities@[c_idx as int];
            (r.0 is Accepted) && req.envelope.kind == CommunityValidTypes::Follow ==> {
                &&& has_follower(final(store).followers@, c.id, p.id)
                &&& (!has_follower(old(store).followers@, c.id, p.id) ==> final(store).followers@
                    == old(store).followers@.push(
                    (crate::community::CommunityFollower {
                        community_id: c.id,
                        person_id: p.id,
                        pending: false,
                    }),
                ))
                &&& (has_follower(old(store).followers@, c.id, p.id) ==> final(store).followers@
                    == old(store).followers@)
                &&& final(store).posts@ == old(store).posts@
                &&& final(store).post_likes@ == old(store).post_likes@
                &&& r.1@.len() == 1
                &&& (r.1@[0] matches OutboundAction::SendAccept { inbox, follow_id } && inbox@
                    == p.inbox_url@ && follow_id == req.envelope.id)
            }
        }),
        ({
            let p = old(store).persons@[p_idx as int];
            let c = old(store).communities@[c_idx as int];
            (r.0 is Accepted) && req.envelope.kind == CommunityValidTypes::Undo && !announces(
                req.envelope,
            ) ==> {
                &&& !has_follower(final(store).followers@, c.id, p.id)
                &&& (forall|c2: i32, p2: i32|
                    !(c2 == c.id && p2 == p.id) ==> has_follower(final(store).followers@, c2, p2)
                        == has_follower(old(store).followers@, c2, p2))
                &&& final(store).posts@ == old(store).posts@
                &&& final(store).post_likes@ == old(store).post_likes@
                &&& r.1@.len() == 0
            }
        }),
        ({
            let p = old(store).persons@[p_idx as int];
            let c = old(store).communities@[c_idx as int];
            let banned = p.banned || has_ban(old(store).community_bans@, c.id, p.id);
            !banned && (req.envelope.kind == CommunityValidTypes::Create || req.envelope.kind
                == CommunityValidTypes::Update) ==> (match req.envelope.object {
                ActivityObject::Page(page) => page.ap_id.domain@ != req.expected_domain@
                    ==> r.0 == InboxOutcome::Rejected(InboxError::DomainMismatch)
                        && *final(store) == *old(store) && r.1@.len() == 0,
                _ => true,
            })
        }),
        ((r.0 is Accepted) && (req.envelope.kind == CommunityValidTypes::Create
            || req.envelope.kind == CommunityValidTypes::Update) ==> (match req.envelope.object {
            ActivityObject::Page(page) => has_post_ap_id(final(store).posts@, page.ap_id.full@)
                && final(store).followers@ == old(store).followers@
                && final(store).post_likes@ == old(store).post_likes@,
            _ => false,
        })),
        ({
            let c = old(store).communities@[c_idx as int];
            (r.0 is Accepted) && announces(req.envelope) ==> r.1@.len() == 1 && (r.1@[0]
                matches OutboundAction::Announce { community_id, activity_id } && community_id
                == c.id && activity_id == req.envelope.id)
        }),
        ({
            let p = old(store).persons@[p_idx as int];
            (r.0 is Accepted) && (req.envelope.kind == CommunityValidTypes::Like
                || req.envelope.kind == CommunityValidTypes::Dislike) ==> (match req.envelope.object {
                ActivityObject::Reference(oid) => {
                    let t = post_index_by_ap_id(old(store).posts@, oid.full@);
                    let score: i16 = if req.envelope.kind == CommunityValidTypes::Like {
                        1i16
                    } else {
                        (-1) as i16
                    };
                    &&& has_post_ap_id(old(store).posts@, oid.full@)
                    &&& has_like(final(store).post_likes@, old(store).posts@[t].id, p.id)
                    &&& (forall|i: int|
                        0 <= i < final(store).post_likes@.len()
                            && (#[trigger] final(store).post_likes@[i]).post_id == old(
                            store,
                        ).posts@[t].id && final(store).post_likes@[i].person_id == p.id
                            ==> final(store).post_likes@[i].score == score)
                    &&& final(store).posts@ == old(store).posts@
                    &&& final(store).followers@ == old(store).followers@
                },
                _ => false,
            })
        }),
        ((r.0 is Accepted) && req.envelope.kind == CommunityValidTypes::Delete ==> (match req.envelope.object {
            ActivityObject::Reference(oid) => {
                let t = post_index_by_ap_id(old(store).posts@, oid.full@);
                &&& has_post_ap_id(old(store).posts@, oid.full@)
                &&& final(store).posts@.len() == old(store).posts@.len()
                &&& final(store).posts@[t] == (Post { deleted: true, ..old(store).posts@[t] })
                &&& (forall|i: int|
                    0 <= i < old(store).posts@.len() && i != t
                        ==> (#[trigger] final(store).posts@[i]) == old(store).posts@[i])
                &&& final(store).followers@ == old(store).followers@
                &&& final(store).post_likes@ == old(store).post_likes@
            },
            _ => false,
        })),
        ({
            let p = old(store).persons@[p_idx as int];
            (r.0 is Accepted) && req.envelope.kind == CommunityValidTypes::Undo && announces(
                req.envelope,
            ) ==> (match req.envelope.object {
                ActivityObject::Activity(inner) => {
                    let t = post_index_by_ap_id(old(store).posts@, inner.object.full@);
                    &&& has_post_ap_id(old(store).posts@, inner.object.full@)
                    &&& (inner.kind == CommunityValidTypes::Like || inner.kind
                        == CommunityValidTypes::Dislike ==> !has_like(
                        final(store).post_likes@,
                        old(store).posts@[t].id,
                        p.id,
                    ) && final(store).posts@ == old(store).posts@)
                    &&& (inner.kind == CommunityValidTypes::Delete ==> final(store).posts@[t] == (
                    Post { deleted: false, ..old(store).posts@[t] }) && final(store).post_likes@
                        == old(store).post_likes@
                        && final(store).posts@.len() == old(store).posts@.len())
                    &&& final(store).followers@ == old(store).followers@
                },
                _ => false,
            })
        }),
        ({
            let p = old(store).persons@[p_idx as int];
            let c = old(store).communities@[c_idx as int];
            let banned = p.banned || has_ban(old(store).community_bans@, c.id, p.id);
            !banned && req.envelope.kind == CommunityValidTypes::Remove ==> r.0 == (
            InboxOutcome::Accepted { announced: false }) && *final(store) == *old(store)
                && r.1@.len() == 0
        }),
{
    proof {
        assert(crate::store::person_actors_unique(old(store).persons@));
        assert(crate::store::community_names_unique(old(store).communities@));
        assert(crate::store::community_actors_unique(old(store).communities@));
        assert(crate::store::post_ap_ids_unique(old(store).posts@));
        lemma_person_index_unique(old(store).persons@, req.envelope.actor.full@, p_idx as int);
        lemma_community_name_index_unique(
            old(store).communities@,
            req.path_community_name@,
            c_idx as int,
        );
    }
    let person_id = store.persons[p_idx].id;
    let community_id = store.communities[c_idx].id;
    if store.persons[p_idx].banned || crate::store::is_banned(
        &store.community_bans,
        community_id,
        person_id,
    ) {
        return (InboxOutcome::Banned, Vec::new());
    }
    match req.envelope.kind {
        CommunityValidTypes::Follow => {
            match &req.envelope.object {
                ActivityObject::Reference(oid) => {
                    if str_eq(oid.full.as_str(), store.communities[c_idx].actor_id.full.as_str()) {
                        let form = CommunityFollowerForm {
                            community_id,
                            person_id,
                            pending: false,
                        };
                        follow(&mut store.followers, &form);
                        let mut actions: Vec<OutboundAction> = Vec::new();
                        actions.push(
                            OutboundAction::SendAccept {
                                inbox: store.persons[p_idx].inbox_url.clone(),
                                follow_id: req.envelope.id.clone(),
                            },
                        );
                        (InboxOutcome::Accepted { announced: false }, actions)
                    } else {
                        (InboxOutcome::Rejected(InboxError::DomainMismatch), Vec::new())
                    }
                },
                _ => (InboxOutcome::Rejected(InboxError::ProcessingFailure), Vec::new()),
            }
        },
        CommunityValidTypes::Undo => {
            match &req.envelope.object {
                ActivityObject::Activity(inner) => {
                    if inner.kind == CommunityValidTypes::Follow {
                        if str_eq(inner.id.domain.as_str(), req.envelope.actor.domain.as_str()) {
                            let form = CommunityFollowerForm {
                                community_id,
                                person_id,
                                pending: false,
                            };
                            unfollow(&mut store.followers, &form);
                            (InboxOutcome::Accepted { announced: false }, Vec::new())
                        } else {
                            (InboxOutcome::Rejected(InboxError::DomainMismatch), Vec::new())
                        }
                    } else {
                        let undone = match inner.kind {
                            CommunityValidTypes::Like => match find_post_by_ap_id(
                                &store.posts,
                                &inner.object,
                            ) {
                                Some(t) => {
                                    let post_id = store.posts[t].id;
                                    remove_like(&mut store.post_likes, post_id, person_id);
                                    true
                                },
                                None => false,
                            },
                            CommunityValidTypes::Dislike => match find_post_by_ap_id(
                                &store.posts,
                                &inner.object,
                            ) {
                                Some(t) => {
                                    let post_id = store.posts[t].id;
                                    remove_like(&mut store.post_likes, post_id, person_id);
                                    true
                                },
                                None => false,
                            },
                            CommunityValidTypes::Delete => match find_post_by_ap_id(
                                &store.posts,
                                &inner.object,
                            ) {
                                Some(t) => {
                                    set_post_deleted(&mut store.posts, t, false);
                                    true
                                },
                                None => false,
                            },
                            _ => false,
                        };
                        if !undone {
                            return (
                                InboxOutcome::Rejected(InboxError::ProcessingFailure),
                                Vec::new(),
                            );
                        }
                        if !is_addressed_to_public(&req.envelope) {
                            return (
                                InboxOutcome::Rejected(InboxError::NotAddressedHere),
                                Vec::new(),
                            );
                        }
                        let mut actions: Vec<OutboundAction> = Vec::new();
                        actions.push(
                            OutboundAction::Announce {
                                community_id,
                                activity_id: req.envelope.id.clone(),
                            },
                        );
                        (InboxOutcome::Accepted { announced: true }, actions)
                    }
                },
                _ => (InboxOutcome::Rejected(InboxError::ProcessingFailure), Vec::new()),
            }
        },
        CommunityValidTypes::Create | CommunityValidTypes::Update => {
            match &req.envelope.object {
                ActivityObject::Page(page) => {
                    let translated = post_form_from_page(
                        page,
                        &store.persons,
                        &store.communities,
                        &store.community_bans,
                        req.expected_domain.as_str(),
                        &req.embed,
                        &req.denylist,
                        req.replacement.as_str(),
                    );
                    match translated {
                        Ok(form) => {
                            let apid = match &form.ap_id {
                                Some(a) => a.clone(),
                                None => {
                                    proof {
                                        assert(false);
                                    }
                                    return (
                                        InboxOutcome::Rejected(InboxError::ProcessingFailure),
                                        Vec::new(),
                                    );
                                },
                            };
                            match find_post_by_ap_id(&store.posts, &apid) {
                                Some(t) => {
                                    update_post(&mut store.posts, t, &form);
                                },
                                None => {
                                    create_post(
                                        &mut store.posts,
                                        &mut store.next_post_id,
                                        &form,
                                        req.now,
                                    );
                                },
                            }
                            proof {
                                assert(has_post_ap_id(store.posts@, page.ap_id.full@));
                            }
                            if !is_addressed_to_public(&req.envelope) {
                                return (
                                    InboxOutcome::Rejected(InboxError::NotAddressedHere),
                                    Vec::new(),
                                );
                            }
                            let mut actions: Vec<OutboundAction> = Vec::new();
                            actions.push(
                                OutboundAction::Announce {
                                    community_id,
                                    activity_id: req.envelope.id.clone(),
                                },
                            );
                            (InboxOutcome::Accepted { announced: true }, actions)
                        },
                        Err(e) => {
                            if e == InboxError::ActorBanned {
                                (InboxOutcome::Banned, Vec::new())
                            } else {
                                (InboxOutcome::Rejected(e), Vec::new())
                            }
                        },
                    }
                },
                _ => (InboxOutcome::Rejected(InboxError::ProcessingFailure), Vec::new()),
            }
        },
        CommunityValidTypes::Like | CommunityValidTypes::Dislike => {
            match &req.envelope.object {
                ActivityObject::Reference(oid) => {
                    match find_post_by_ap_id(&store.posts, oid) {
                        Some(t) => {
                            let post_id = store.posts[t].id;
                            let score: i16 = if matches!(req.envelope.kind, CommunityValidTypes::Like) {
                                1
                            } else {
                                -1
                            };
                            let form = PostLikeForm { post_id, person_id, score };
                            like(&mut store.post_likes, &form);
                            if !is_addressed_to_public(&req.envelope) {
                                return (
                                    InboxOutcome::Rejected(InboxError::NotAddressedHere),
                                    Vec::new(),
                                );
                            }
                            let mut actions: Vec<OutboundAction> = Vec::new();
                            actions.push(
                                OutboundAction::Announce {
                                    community_id,
                                    activity_id: req.envelope.id.clone(),
                                },
                            );
                            (InboxOutcome::Accepted { announced: true }, actions)
                        },
                        None => (InboxOutcome::Rejected(InboxError::ProcessingFailure), Vec::new()),
                    }
                },
                _ => (InboxOutcome::Rejected(InboxError::ProcessingFailure), Vec::new()),
            }
        },
        CommunityValidTypes::Delete => {
            match &req.envelope.object {
                ActivityObject::Reference(oid) => {
                    match find_post_by_ap_id(&store.posts, oid) {
                        Some(t) => {
                            set_post_deleted(&mut store.posts, t, true);
                            if !is_addressed_to_public(&req.envelope) {
                                return (
                                    InboxOutcome::Rejected(InboxError::NotAddressedHere),
                                    Vec::new(),
                                );
                            }
                            let mut actions: Vec<OutboundAction> = Vec::new();
                            actions.push(
                                OutboundAction::Announce {
                                    community_id,
                                    activity_id: req.envelope.id.clone(),
                                },
                            );
                            (InboxOutcome::Accepted { announced: true }, actions)
                        },
                        None => (InboxOutcome::Rejected(InboxError::ProcessingFailure), Vec::new()),
                    }
                },
                _ => (InboxOutcome::Rejected(InboxError::ProcessingFailure), Vec::new()),
            }
        },
        CommunityValidTypes::Remove => {
            // Remote moderation is not trusted: acknowledged, never acted on.
            (InboxOutcome::Accepted { announced: false }, Vec::new())
        },
    }
}

} // verus!

verus! {

/// Handles one inbound delivery to a community inbox, in strict order:
/// resolve the claimed sender, require a valid signature, require the
/// activity id to live under the sender's domain, absorb replays, find
/// the addressed community, refuse ids forged under this node's own
/// domain, record the activity, and route it. An accepted, announced
/// activity has its dedup record marked forwarded, so an id is handed to
/// the announce collaborator at most once.
pub fn community_inbox(store: &mut Store, req: &DeliveryRequest) -> (r: (
    InboxOutcome,
    Vec<OutboundAction>,
))
    requires
        old(store).wf(),
        old(store).next_post_id < i32::MAX,
    ensures
        final(store).wf(),
        final(store).persons@ == old(store).persons@,
        final(store).next_person_id == old(store).next_person_id,
        final(store).communities@ == old(store).communities@,
        final(store).next_community_id == old(store).next_community_id,
        final(store).moderators@ == old(store).moderators@,
        final(store).community_bans@ == old(store).community_bans@,
        (!has_person_actor(old(store).persons@, req.envelope.actor.full@) ==> r.0
            == InboxOutcome::Rejected(InboxError::ActorUnresolvable) && *final(store) == *old(store)
            && r.1@.len() == 0),
        (has_person_actor(old(store).persons@, req.envelope.actor.full@)
            && !req.signature_valid ==> r.0 == InboxOutcome::Rejected(InboxError::SignatureInvalid)
            && *final(store) == *old(store) && r.1@.len() == 0),
        (!req.signature_valid ==> *final(store) == *old(store) && r.1@.len() == 0 && !(r.0
            is Accepted)),
        (has_person_actor(old(store).persons@, req.envelope.actor.full@) && req.signature_valid
            && req.envelope.id.domain@ != req.envelope.actor.domain@ ==> r.0
            == InboxOutcome::Rejected(InboxError::DomainMismatch) && *final(store) == *old(store)
            && r.1@.len() == 0),
        (has_person_actor(old(store).persons@, req.envelope.actor.full@) && req.signature_valid
            && req.envelope.id.domain@ == req.envelope.actor.domain@ && dedup_has(
            old(store).dedup@,
            req.envelope.id.full@,
        ) ==> r.0 == InboxOutcome::AlreadySeen && *final(store) == *old(store) && r.1@.len() == 0),
        (has_person_actor(old(store).persons@, req.envelope.actor.full@) && req.signature_valid
            && req.envelope.id.domain@ == req.envelope.actor.domain@ && !dedup_has(
            old(store).dedup@,
            req.envelope.id.full@,
        ) && !has_community_name(old(store).communities@, req.path_community_name@) ==> r.0
            == InboxOutcome::Rejected(InboxError::ProcessingFailure) && *final(store) == *old(store)
            && r.1@.len() == 0),
        (has_person_actor(old(store).persons@, req.envelope.actor.full@) && req.signature_valid
            && req.envelope.id.domain@ == req.envelope.actor.domain@ && !dedup_has(
            old(store).dedup@,
            req.envelope.id.full@,
        ) && has_community_name(old(store).communities@, req.path_community_name@)
            && !addressed_to(
            req.envelope,
            target_community_of(*old(store), *req).actor_id.full@,
        ) ==> r.0 == InboxOutcome::Rejected(InboxError::NotAddressedHere)
            && *final(store) == *old(store) && r.1@.len() == 0),
        (has_person_actor(old(store).persons@, req.envelope.actor.full@) && req.signature_valid
            && req.envelope.id.domain@ == req.envelope.actor.domain@ && !dedup_has(
            old(store).dedup@,
            req.envelope.id.full@,
        ) && has_community_name(old(store).communities@, req.path_community_name@) && addressed_to(
            req.envelope,
            target_community_of(*old(store), *req).actor_id.full@,
        ) && req.envelope.id.domain@ == req.local_domain@ ==> r.0 == InboxOutcome::Rejected(
            InboxError::ForeignActivity,
        ) && *final(store) == *old(store) && r.1@.len() == 0),
        (gates_pass(*old(store), *req) ==> dedup_has(final(store).dedup@, req.envelope.id.full@)),
        (!gates_pass(*old(store), *req) ==> final(store).dedup@ == old(store).dedup@),
        (gates_pass(*old(store), *req) && sender_banned(*old(store), *req) ==> r.0
            == InboxOutcome::Banned && final(store).followers@ == old(store).followers@
            && final(store).posts@ == old(store).posts@
            && final(store).post_likes@ == old(store).post_likes@ && r.1@.len() == 0),
        ((r.0 is Accepted) <==> gates_pass(*old(store), *req) && !sender_banned(*old(store), *req)
            && kind_accepts(*old(store), *req)),
        ((r.0 is Accepted) ==> r.0 == (InboxOutcome::Accepted {
            announced: announces(req.envelope),
        })),
        (!(r.0 is Accepted) ==> r.1@.len() == 0),
        ((r.0 is Accepted) && req.envelope.kind == CommunityValidTypes::Follow ==> has_follower(
            final(store).followers@,
            target_community_of(*old(store), *req).id,
            sender_of(*old(store), *req).id,
        ) && r.1@.len() == 1 && (r.1@[0] matches OutboundAction::SendAccept { inbox, follow_id }
            && inbox@ == sender_of(*old(store), *req).inbox_url@ && follow_id == req.envelope.id)),
        ((r.0 is Accepted) && req.envelope.kind == CommunityValidTypes::Undo && !announces(
            req.envelope,
        ) ==> !has_follower(
            final(store).followers@,
            target_community_of(*old(store), *req).id,
            sender_of(*old(store), *req).id,
        )),
        ((r.0 is Accepted) && announces(req.envelope) ==> r.1@.len() == 1 && (r.1@[0]
            matches OutboundAction::Announce { community_id, activity_id } && community_id
            == target_community_of(*old(store), *req).id && activity_id == req.envelope.id)),
        ((r.0 is Accepted) && (req.envelope.kind == CommunityValidTypes::Create
            || req.envelope.kind == CommunityValidTypes::Update) ==> (match req.envelope.object {
            ActivityObject::Page(page) => has_post_ap_id(final(store).posts@, page.ap_id.full@)
                && final(store).followers@ == old(store).followers@
                && final(store).post_likes@ == old(store).post_likes@,
            _ => false,
        })),
        ((r.0 is Accepted) && (req.envelope.kind == CommunityValidTypes::Like || req.envelope.kind
            == CommunityValidTypes::Dislike) ==> (match req.envelope.object {
            ActivityObject::Reference(oid) => {
                let t = post_index_by_ap_id(old(store).posts@, oid.full@);
                let score: i16 = if req.envelope.kind == CommunityValidTypes::Like {
                    1i16
                } else {
                    (-1) as i16
                };
                &&& has_post_ap_id(old(store).posts@, oid.full@)
                &&& has_like(
                    final(store).post_likes@,
                    old(store).posts@[t].id,
                    sender_of(*old(store), *req).id,
                )
                &&& (forall|i: int|
                    0 <= i < final(store).post_likes@.len()
                        && (#[trigger] final(store).post_likes@[i]).post_id == old(
                        store,
                    ).posts@[t].id && final(store).post_likes@[i].person_id == sender_of(
                        *old(store),
                        *req,
                    ).id ==> final(store).post_likes@[i].score == score)
                &&& final(store).posts@ == old(store).posts@
                &&& final(store).followers@ == old(store).followers@
            },
            _ => false,
        })),
        ((r.0 is Accepted) && req.envelope.kind == CommunityValidTypes::Delete ==> (match req.envelope.object {
            ActivityObject::Reference(oid) => {
                let t = post_index_by_ap_id(old(store).posts@, oid.full@);
                &&& has_post_ap_id(old(store).posts@, oid.full@)
                &&& final(store).posts@.len() == old(store).posts@.len()
                &&& final(store).posts@[t] == (Post { deleted: true, ..old(store).posts@[t] })
                &&& final(store).followers@ == old(store).followers@
                &&& final(store).post_likes@ == old(store).post_likes@
            },
            _ => false,
        })),
        ((r.0 is Accepted) && req.envelope.kind == CommunityValidTypes::Undo && announces(
            req.envelope,
        ) ==> (match req.envelope.object {
            ActivityObject::Activity(inner) => {
                let t = post_index_by_ap_id(old(store).posts@, inner.object.full@);
                &&& has_post_ap_id(old(store).posts@, inner.object.full@)
                &&& (inner.kind == CommunityValidTypes::Like || inner.kind
                    == CommunityValidTypes::Dislike ==> !has_like(
                    final(store).post_likes@,
                    old(store).posts@[t].id,
                    sender_of(*old(store), *req).id,
                ) && final(store).posts@ == old(store).posts@)
                &&& (inner.kind == CommunityValidTypes::Delete ==> final(store).posts@[t] == (Post {
                    deleted: false,
                    ..old(store).posts@[t]
                }) && final(store).post_likes@ == old(store).post_likes@
                    && final(store).posts@.len() == old(store).posts@.len())
                &&& final(store).followers@ == old(store).followers@
            },
            _ => false,
        })),
        (gates_pass(*old(store), *req) && !sender_banned(*old(store), *req) && (req.envelope.kind
            == CommunityValidTypes::Create || req.envelope.kind == CommunityValidTypes::Update)
            ==> (match req.envelope.object {
            ActivityObject::Page(page) => page.ap_id.domain@ != req.expected_domain@ ==> r.0
                == InboxOutcome::Rejected(InboxError::DomainMismatch)
                    && final(store).followers@ == old(store).followers@
                    && final(store).posts@ == old(store).posts@
                    && final(store).post_likes@ == old(store).post_likes@ && r.1@.len() == 0,
            _ => true,
        })),
{
    let p_idx = match find_person_by_actor(&store.persons, &req.envelope.actor) {
        Some(i) => i,
        None => {
            return (InboxOutcome::Rejected(InboxError::ActorUnresolvable), Vec::new());
        },
    };
    if !req.signature_valid {
        return (InboxOutcome::Rejected(InboxError::SignatureInvalid), Vec::new());
    }
    if !str_eq(req.envelope.id.domain.as_str(), req.envelope.actor.domain.as_str()) {
        return (InboxOutcome::Rejected(InboxError::DomainMismatch), Vec::new());
    }
    if dedup_contains(&store.dedup, &req.envelope.id) {
        return (InboxOutcome::AlreadySeen, Vec::new());
    }
    let c_idx = match find_community_by_name(&store.communities, req.path_community_name.as_str()) {
        Some(i) => i,
        None => {
            return (InboxOutcome::Rejected(InboxError::ProcessingFailure), Vec::new());
        },
    };
    proof {
        assert(crate::store::person_actors_unique(old(store).persons@));
        assert(crate::store::community_names_unique(old(store).communities@));
        lemma_person_index_unique(old(store).persons@, req.envelope.actor.full@, p_idx as int);
        lemma_community_name_index_unique(
            old(store).communities@,
            req.path_community_name@,
            c_idx as int,
        );
    }
    if !envelope_addressed_to(&req.envelope, store.communities[c_idx].actor_id.full.as_str()) {
        return (InboxOutcome::Rejected(InboxError::NotAddressedHere), Vec::new());
    }
    if str_eq(req.envelope.id.domain.as_str(), req.local_domain.as_str()) {
        return (InboxOutcome::Rejected(InboxError::ForeignActivity), Vec::new());
    }
    assert(gates_pass(*old(store), *req));
    dedup_insert(&mut store.dedup, &req.envelope.id, true);
    let ghost mid = *store;
    proof {
        assert(mid.wf());
        assert(kind_accepts(mid, *req) == kind_accepts(*old(store), *req));
    }
    let (outcome, actions) = community_receive_message(store, req, p_idx, c_idx);
    if matches!(outcome, InboxOutcome::Accepted { announced: true }) {
        dedup_mark_forwarded(&mut store.dedup, &req.envelope.id);
    }
    (outcome, actions)
}

} // verus!

verus! {

/// Replay idempotence: however many times an activity id is delivered,
/// a well-formed store holds exactly one dedup record for it once it is
/// recorded at all. Together with the inbox contract — a recorded id is
/// answered `AlreadySeen` with the store untouched and nothing sent —
/// a duplicate delivery leaves one record, one set of effects and at
/// most one announce.
pub proof fn lemma_replay_idempotence(s: Store, id: Seq<char>)
    requires
        s.wf(),
        dedup_has(s.dedup@, id),
    ensures
        crate::store::dedup_count(s.dedup@, id) == 1,
{
    crate::store::lemma_dedup_count_one(s.dedup@, id);
}

/// Follow then Undo(Follow) leaves no follower relation for the pair:
/// the first two steps are the follow handler's effect on the follower
/// model, the last is the undo handler's, and no relation remains.
pub proof fn lemma_follow_undo_symmetry(
    pre: Seq<crate::community::CommunityFollower>,
    mid: Seq<crate::community::CommunityFollower>,
    post: Seq<crate::community::CommunityFollower>,
    c: i32,
    p: i32,
)
    requires
        crate::store::followers_unique(pre),
        has_follower(pre, c, p) ==> mid == pre,
        !has_follower(pre, c, p) ==> mid == pre.push(
            (crate::community::CommunityFollower { community_id: c, person_id: p, pending: false }),
        ),
        !has_follower(post, c, p),
    ensures
        crate::store::follower_count(post, c, p) == 0,
{
    crate::store::lemma_follower_count_zero(post, c, p);
}

/// Follow then Follow again leaves exactly one follower relation for
/// the pair: the duplicate is absorbed, not stacked and not escalated.
pub proof fn lemma_follow_twice_exactly_one(
    pre: Seq<crate::community::CommunityFollower>,
    mid: Seq<crate::community::CommunityFollower>,
    post: Seq<crate::community::CommunityFollower>,
    c: i32,
    p: i32,
)
    requires
        crate::store::followers_unique(pre),
        has_follower(pre, c, p) ==> mid == pre,
        !has_follower(pre, c, p) ==> mid == pre.push(
            (crate::community::CommunityFollower { community_id: c, person_id: p, pending: false }),
        ),
        has_follower(mid, c, p) ==> post == mid,
        !has_follower(mid, c, p) ==> post == mid.push(
            (crate::community::CommunityFollower { community_id: c, person_id: p, pending: false }),
        ),
    ensures
        crate::store::follower_count(post, c, p) == 1,
{
    if !has_follower(pre, c, p) {
        assert(mid[pre.len() as int].community_id == c && mid[pre.len() as int].person_id == p);
    }
    assert(has_follower(mid, c, p));
    assert(post == mid);
    assert(crate::store::followers_unique(mid)) by {
        if !has_follower(pre, c, p) {
            assert forall|a: int, b: int| 0 <= a < b < mid.len() implies !((
            #[trigger] mid[a]).community_id == (#[trigger] mid[b]).community_id && mid[a].person_id
                == mid[b].person_id) by {
                if b < pre.len() {
                    assert(mid[a] == pre[a] && mid[b] == pre[b]);
                } else {
                    assert(mid[a] == pre[a]);
                }
            }
        }
    }
    crate::store::lemma_follower_count_one(mid, c, p);
}

} // verus!
