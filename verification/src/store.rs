//! The visible state of the storage collaborator.
//!
//! The core never owns persisted rows; it reads actors and bans and writes
//! dedup and follower state through narrow calls. This module is the model
//! of that state the contracts are written against: each collection with
//! its uniqueness invariant, and the handful of operations the pipeline
//! performs, each stated exactly.

use vstd::prelude::*;
use crate::community::{Community, CommunityFollower, CommunityFollowerForm, CommunityModerator,
    CommunityModeratorForm, CommunityPersonBan, CommunityPersonBanForm};
use crate::ids::ObjectId;
use crate::person::Person;
use crate::person::clone_opt_string;
use crate::post::{Post, PostForm, PostLike, PostLikeForm};
use crate::text::str_eq;

verus! {

/// The persisted marker of a previously processed activity id. Created
/// exactly once per first-seen id; only the `forwarded` flag is ever
/// changed afterwards, false to true at most once.
pub struct DedupRecord {
    pub ap_id: ObjectId,
    /// True when the activity must not be served to other nodes.
    pub sensitive: bool,
    /// True once the activity has been handed to the announce collaborator.
    pub forwarded: bool,
}

/// True when some record of `ds` carries the activity id `id`.
pub open spec fn dedup_has(ds: Seq<DedupRecord>, id: Seq<char>) -> bool {
    exists|i: int| 0 <= i < ds.len() && (#[trigger] ds[i]).ap_id.full@ == id
}

/// True when no two records of `ds` carry the same activity id.
pub open spec fn dedup_unique(ds: Seq<DedupRecord>) -> bool {
    forall|i: int, j: int|
        0 <= i < j < ds.len() ==> (#[trigger] ds[i]).ap_id.full@ != (#[trigger] ds[j]).ap_id.full@
}

/// How many records of `ds` carry the activity id `id`.
pub open spec fn dedup_count(ds: Seq<DedupRecord>, id: Seq<char>) -> nat
    decreases ds.len(),
{
    if ds.len() == 0 {
        0
    } else {
        (if ds.last().ap_id.full@ == id {
            1nat
        } else {
            0nat
        }) + dedup_count(ds.drop_last(), id)
    }
}

/// True when the pair (community `c`, person `p`) is a follower relation
/// of `fs`.
pub open spec fn has_follower(fs: Seq<CommunityFollower>, c: i32, p: i32) -> bool {
    exists|i: int|
        0 <= i < fs.len() && (#[trigger] fs[i]).community_id == c && fs[i].person_id == p
}

/// True when no (community, person) pair appears twice in `fs`.
pub open spec fn followers_unique(fs: Seq<CommunityFollower>) -> bool {
    forall|i: int, j: int|
        0 <= i < j < fs.len() ==> !((#[trigger] fs[i]).community_id == (#[trigger] fs[j]).community_id
            && fs[i].person_id == fs[j].person_id)
}

/// How many follower relations of `fs` carry the pair (`c`, `p`).
pub open spec fn follower_count(fs: Seq<CommunityFollower>, c: i32, p: i32) -> nat
    decreases fs.len(),
{
    if fs.len() == 0 {
        0
    } else {
        (if fs.last().community_id == c && fs.last().person_id == p {
            1nat
        } else {
            0nat
        }) + follower_count(fs.drop_last(), c, p)
    }
}

/// True when the pair (community `c`, person `p`) is banned in `bs`.
pub open spec fn has_ban(bs: Seq<CommunityPersonBan>, c: i32, p: i32) -> bool {
    exists|i: int|
        0 <= i < bs.len() && (#[trigger] bs[i]).community_id == c && bs[i].person_id == p
}

/// True when no (community, person) pair appears twice in `bs`.
pub open spec fn bans_unique(bs: Seq<CommunityPersonBan>) -> bool {
    forall|i: int, j: int|
        0 <= i < j < bs.len() ==> !((#[trigger] bs[i]).community_id == (#[trigger] bs[j]).community_id
            && bs[i].person_id == bs[j].person_id)
}

/// True when person `p` holds a moderator seat of community `c` in `ms`.
pub open spec fn has_moderator(ms: Seq<CommunityModerator>, c: i32, p: i32) -> bool {
    exists|i: int|
        0 <= i < ms.len() && (#[trigger] ms[i]).community_id == c && ms[i].person_id == p
}

/// True when no (community, person) pair appears twice in `ms`.
pub open spec fn moderators_unique(ms: Seq<CommunityModerator>) -> bool {
    forall|i: int, j: int|
        0 <= i < j < ms.len() ==> !((#[trigger] ms[i]).community_id == (#[trigger] ms[j]).community_id
            && ms[i].person_id == ms[j].person_id)
}

/// True when person `p` has a vote on post `t` in `ls`.
pub open spec fn has_like(ls: Seq<PostLike>, t: i32, p: i32) -> bool {
    exists|i: int| 0 <= i < ls.len() && (#[trigger] ls[i]).post_id == t && ls[i].person_id == p
}

/// True when no (post, person) pair appears twice in `ls`.
pub open spec fn likes_unique(ls: Seq<PostLike>) -> bool {
    forall|i: int, j: int|
        0 <= i < j < ls.len() ==> !((#[trigger] ls[i]).post_id == (#[trigger] ls[j]).post_id
            && ls[i].person_id == ls[j].person_id)
}

/// True when some person of `ps` has the actor identifier `actor`.
pub open spec fn has_person_actor(ps: Seq<Person>, actor: Seq<char>) -> bool {
    exists|i: int| 0 <= i < ps.len() && (#[trigger] ps[i]).actor_id.full@ == actor
}

/// True when no two persons of `ps` share an id or an actor identifier,
/// and every person id is below `next_id`.
pub open spec fn persons_unique(ps: Seq<Person>, next_id: i32) -> bool {
    &&& forall|i: int, j: int|
        0 <= i < j < ps.len() ==> (#[trigger] ps[i]).id != (#[trigger] ps[j]).id
            && ps[i].actor_id.full@ != ps[j].actor_id.full@
    &&& forall|i: int| 0 <= i < ps.len() ==> (#[trigger] ps[i]).id < next_id
}

/// True when some community of `cs` has the name `name`.
pub open spec fn has_community_name(cs: Seq<Community>, name: Seq<char>) -> bool {
    exists|i: int| 0 <= i < cs.len() && (#[trigger] cs[i]).name@ == name
}

/// True when some community of `cs` has the actor identifier `actor`.
pub open spec fn has_community_actor(cs: Seq<Community>, actor: Seq<char>) -> bool {
    exists|i: int| 0 <= i < cs.len() && (#[trigger] cs[i]).actor_id.full@ == actor
}

/// True when no two communities of `cs` share an id, a name or an actor
/// identifier, and every community id is below `next_id`.
pub open spec fn communities_unique(cs: Seq<Community>, next_id: i32) -> bool {
    &&& forall|i: int, j: int|
        0 <= i < j < cs.len() ==> (#[trigger] cs[i]).id != (#[trigger] cs[j]).id
            && cs[i].name@ != cs[j].name@ && cs[i].actor_id.full@ != cs[j].actor_id.full@
    &&& forall|i: int| 0 <= i < cs.len() ==> (#[trigger] cs[i]).id < next_id
}

/// True when some post of `ts` has the object identifier `ap_id`.
pub open spec fn has_post_ap_id(ts: Seq<Post>, ap_id: Seq<char>) -> bool {
    exists|i: int| 0 <= i < ts.len() && (#[trigger] ts[i]).ap_id.full@ == ap_id
}

/// True when no two posts of `ts` share an id or an object identifier,
/// and every post id is below `next_id`.
pub open spec fn posts_unique(ts: Seq<Post>, next_id: i32) -> bool {
    &&& forall|i: int, j: int|
        0 <= i < j < ts.len() ==> (#[trigger] ts[i]).id != (#[trigger] ts[j]).id
            && ts[i].ap_id.full@ != ts[j].ap_id.full@
    &&& forall|i: int| 0 <= i < ts.len() ==> (#[trigger] ts[i]).id < next_id
}

/// The storage collaborator's state, as far as the core reads or writes
/// it.
pub struct Store {
    pub persons: Vec<Person>,
    /// The id the next created person receives.
    pub next_person_id: i32,
    pub communities: Vec<Community>,
    /// The id the next created community receives.
    pub next_community_id: i32,
    pub posts: Vec<Post>,
    /// The id the next created post receives.
    pub next_post_id: i32,
    pub post_likes: Vec<PostLike>,
    pub followers: Vec<CommunityFollower>,
    pub community_bans: Vec<CommunityPersonBan>,
    pub moderators: Vec<CommunityModerator>,
    pub dedup: Vec<DedupRecord>,
}

impl Store {
    /// Every collection keeps its keys unique.
    pub open spec fn wf(&self) -> bool {
        &&& persons_unique(self.persons@, self.next_person_id)
        &&& communities_unique(self.communities@, self.next_community_id)
        &&& posts_unique(self.posts@, self.next_post_id)
        &&& likes_unique(self.post_likes@)
        &&& followers_unique(self.followers@)
        &&& bans_unique(self.community_bans@)
        &&& moderators_unique(self.moderators@)
        &&& dedup_unique(self.dedup@)
    }

    /// A store with nothing in it.
    pub fn new() -> (r: Store)
        ensures
            r.wf(),
            r.persons@.len() == 0,
            r.communities@.len() == 0,
            r.posts@.len() == 0,
            r.post_likes@.len() == 0,
            r.followers@.len() == 0,
            r.community_bans@.len() == 0,
            r.moderators@.len() == 0,
            r.dedup@.len() == 0,
            r.next_post_id == 1,
            r.next_person_id == 1,
            r.next_community_id == 1,
    {
        Store {
            persons: Vec::new(),
            next_person_id: 1,
            communities: Vec::new(),
            next_community_id: 1,
            posts: Vec::new(),
            next_post_id: 1,
            post_likes: Vec::new(),
            followers: Vec::new(),
            community_bans: Vec::new(),
            moderators: Vec::new(),
            dedup: Vec::new(),
        }
    }
}

/// The index of the person whose actor identifier is `actor`, if any.
pub fn find_person_by_actor(ps: &Vec<Person>, actor: &ObjectId) -> (r: Option<usize>)
    ensures
        (r is Some) == has_person_actor(ps@, actor.full@),
        r is Some ==> r.unwrap() < ps@.len() && ps@[r.unwrap() as int].actor_id.full@
            == actor.full@,
{
    let mut i: usize = 0;
    while i < ps.len()
        invariant
            0 <= i <= ps@.len(),
            forall|t: int| 0 <= t < i ==> (#[trigger] ps@[t]).actor_id.full@ != actor.full@,
        decreases ps@.len() - i,
    {
        if ps[i].actor_id.same_id(actor) {
            return Some(i);
        }
        i = i + 1;
    }
    None
}

/// The index of the community named `name`, if any.
pub fn find_community_by_name(cs: &Vec<Community>, name: &str) -> (r: Option<usize>)
    ensures
        (r is Some) == has_community_name(cs@, name@),
        r is Some ==> r.unwrap() < cs@.len() && cs@[r.unwrap() as int].name@ == name@,
{
    let mut i: usize = 0;
    while i < cs.len()
        invariant
            0 <= i <= cs@.len(),
            forall|t: int| 0 <= t < i ==> (#[trigger] cs@[t]).name@ != name@,
        decreases cs@.len() - i,
    {
        if str_eq(cs[i].name.as_str(), name) {
            return Some(i);
        }
        i = i + 1;
    }
    None
}

/// The index of the community whose actor identifier is `actor`, if any.
pub fn find_community_by_actor(cs: &Vec<Community>, actor: &ObjectId) -> (r: Option<usize>)
    ensures
        (r is Some) == has_community_actor(cs@, actor.full@),
        r is Some ==> r.unwrap() < cs@.len() && cs@[r.unwrap() as int].actor_id.full@
            == actor.full@,
{
    let mut i: usize = 0;
    while i < cs.len()
        invariant
            0 <= i <= cs@.len(),
            forall|t: int| 0 <= t < i ==> (#[trigger] cs@[t]).actor_id.full@ != actor.full@,
        decreases cs@.len() - i,
    {
        if cs[i].actor_id.same_id(actor) {
            return Some(i);
        }
        i = i + 1;
    }
    None
}

/// The index of the post whose object identifier is `ap_id`, if any.
pub fn find_post_by_ap_id(ts: &Vec<Post>, ap_id: &ObjectId) -> (r: Option<usize>)
    ensures
        (r is Some) == has_post_ap_id(ts@, ap_id.full@),
        r is Some ==> r.unwrap() < ts@.len() && ts@[r.unwrap() as int].ap_id.full@ == ap_id.full@,
{
    let mut i: usize = 0;
    while i < ts.len()
        invariant
            0 <= i <= ts@.len(),
            forall|t: int| 0 <= t < i ==> (#[trigger] ts@[t]).ap_id.full@ != ap_id.full@,
        decreases ts@.len() - i,
    {
        if ts[i].ap_id.same_id(ap_id) {
            return Some(i);
        }
        i = i + 1;
    }
    None
}

/// True when a dedup record for `id` exists.
pub fn dedup_contains(ds: &Vec<DedupRecord>, id: &ObjectId) -> (r: bool)
    ensures
        r == dedup_has(ds@, id.full@),
{
    let mut i: usize = 0;
    while i < ds.len()
        invariant
            0 <= i <= ds@.len(),
            forall|t: int| 0 <= t < i ==> (#[trigger] ds@[t]).ap_id.full@ != id.full@,
        decreases ds@.len() - i,
    {
        if ds[i].ap_id.same_id(id) {
            return true;
        }
        i = i + 1;
    }
    false
}

/// Records a first-seen activity id. The caller has already checked that
/// no record for it exists.
pub fn dedup_insert(ds: &mut Vec<DedupRecord>, id: &ObjectId, sensitive: bool)
    requires
        !dedup_has(old(ds)@, id.full@),
    ensures
        final(ds)@.len() == old(ds)@.len() + 1,
        final(ds)@.drop_last() == old(ds)@,
        final(ds)@.last().ap_id.full@ == id.full@,
        final(ds)@.last().sensitive == sensitive,
        !final(ds)@.last().forwarded,
        dedup_has(final(ds)@, id.full@),
        dedup_unique(old(ds)@) ==> dedup_unique(final(ds)@),
        forall|other: Seq<char>|
            other != id.full@ ==> dedup_has(final(ds)@, other) == dedup_has(old(ds)@, other),
{
    let record = DedupRecord { ap_id: id.clone(), sensitive, forwarded: false };
    ds.push(record);
    proof {
        assert(ds@.drop_last() =~= old(ds)@);
        assert(ds@[old(ds)@.len() as int].ap_id.full@ == id.full@);
        assert forall|other: Seq<char>|
            other != id.full@ implies dedup_has(ds@, other) == dedup_has(old(ds)@, other) by {
            if dedup_has(ds@, other) {
                let w = choose|i: int| 0 <= i < ds@.len() && (#[trigger] ds@[i]).ap_id.full@ == other;
                assert(w < old(ds)@.len() && old(ds)@[w].ap_id.full@ == other);
            }
            if dedup_has(old(ds)@, other) {
                let w = choose|i: int|
                    0 <= i < old(ds)@.len() && (#[trigger] old(ds)@[i]).ap_id.full@ == other;
                assert(ds@[w].ap_id.full@ == other);
            }
        }
    }
}

/// Marks the dedup record of `id` as forwarded. Everything else about
/// every record stays as it was.
pub fn dedup_mark_forwarded(ds: &mut Vec<DedupRecord>, id: &ObjectId)
    ensures
        final(ds)@.len() == old(ds)@.len(),
        forall|i: int|
            0 <= i < old(ds)@.len() ==> (#[trigger] final(ds)@[i]).ap_id.full@
                == old(ds)@[i].ap_id.full@ && final(ds)@[i].sensitive == old(ds)@[i].sensitive,
        forall|i: int|
            0 <= i < old(ds)@.len() && old(ds)@[i].ap_id.full@ != id.full@
                ==> (#[trigger] final(ds)@[i]).forwarded == old(ds)@[i].forwarded,
        forall|i: int|
            0 <= i < old(ds)@.len() && old(ds)@[i].ap_id.full@ == id.full@
                ==> (#[trigger] final(ds)@[i]).forwarded,
        dedup_unique(old(ds)@) ==> dedup_unique(final(ds)@),
        forall|other: Seq<char>| dedup_has(final(ds)@, other) == dedup_has(old(ds)@, other),
{
    let n = ds.len();
    let mut i: usize = 0;
    while i < n
        invariant
            n == ds@.len(),
            n == old(ds)@.len(),
            0 <= i <= n,
            forall|t: int|
                0 <= t < n ==> (#[trigger] ds@[t]).ap_id.full@ == old(ds)@[t].ap_id.full@
                    && ds@[t].sensitive == old(ds)@[t].sensitive,
            forall|t: int|
                0 <= t < i && old(ds)@[t].ap_id.full@ == id.full@ ==> (#[trigger] ds@[t]).forwarded,
            forall|t: int|
                0 <= t < n && !(t < i && old(ds)@[t].ap_id.full@ == id.full@) ==> (#[trigger] ds@[t]).forwarded
                    == old(ds)@[t].forwarded,
        decreases n - i,
    {
        if ds[i].ap_id.same_id(id) {
            let sens = ds[i].sensitive;
            let ap = ds[i].ap_id.clone();
            let updated = DedupRecord { ap_id: ap, sensitive: sens, forwarded: true };
            ds[i] = updated;
        }
        i = i + 1;
    }
    proof {
        assert forall|other: Seq<char>| dedup_has(ds@, other) == dedup_has(old(ds)@, other) by {
            if dedup_has(ds@, other) {
                let w = choose|t: int| 0 <= t < ds@.len() && (#[trigger] ds@[t]).ap_id.full@ == other;
                assert(old(ds)@[w].ap_id.full@ == other);
            }
            if dedup_has(old(ds)@, other) {
                let w = choose|t: int|
                    0 <= t < old(ds)@.len() && (#[trigger] old(ds)@[t]).ap_id.full@ == other;
                assert(ds@[w].ap_id.full@ == other);
            }
        }
    }
}

} // verus!

verus! {

/// What removing index `i` does to a follower list: the pair at `i` is
/// gone, every other pair keeps its membership, and uniqueness holds on.
proof fn lemma_follower_remove(pre: Seq<CommunityFollower>, post: Seq<CommunityFollower>, i: int)
    requires
        followers_unique(pre),
        0 <= i < pre.len(),
        post == pre.remove(i),
    ensures
        followers_unique(post),
        !has_follower(post, pre[i].community_id, pre[i].person_id),
        forall|c: i32, p: i32|
            !(c == pre[i].community_id && p == pre[i].person_id) ==> has_follower(post, c, p)
                == has_follower(pre, c, p),
        post.len() == pre.len() - 1,
{
    pre.remove_ensures(i);
    assert forall|a: int, b: int| 0 <= a < b < post.len() implies !((#[trigger] post[a]).community_id
        == (#[trigger] post[b]).community_id && post[a].person_id == post[b].person_id) by {
        let a2: int = if a < i {
            a
        } else {
            a + 1
        };
        let b2: int = if b < i {
            b
        } else {
            b + 1
        };
        assert(post[a] == pre[a2]);
        assert(post[b] == pre[b2]);
    }
    assert forall|t: int| 0 <= t < post.len() implies !((#[trigger] post[t]).community_id
        == pre[i].community_id && post[t].person_id == pre[i].person_id) by {
        let t2: int = if t < i {
            t
        } else {
            t + 1
        };
        assert(post[t] == pre[t2]);
    }
    assert forall|c: i32, p: i32|
        !(c == pre[i].community_id && p == pre[i].person_id) implies has_follower(post, c, p)
        == has_follower(pre, c, p) by {
        if has_follower(post, c, p) {
            let w = choose|t: int|
                0 <= t < post.len() && (#[trigger] post[t]).community_id == c && post[t].person_id
                    == p;
            let w2: int = if w < i {
                w
            } else {
                w + 1
            };
            assert(pre[w2].community_id == c && pre[w2].person_id == p);
        }
        if has_follower(pre, c, p) {
            let w = choose|t: int|
                0 <= t < pre.len() && (#[trigger] pre[t]).community_id == c && pre[t].person_id
                    == p;
            let w2: int = if w < i {
                w
            } else {
                w - 1
            };
            assert(w != i);
            assert(post[w2] == pre[w]);
        }
    }
}

/// Adds the follower relation the form describes, once: a pair that is
/// already present is left as it is, and the call says so. The absorbed
/// duplicate mirrors the uniqueness constraint of the backing row.
pub fn follow(fs: &mut Vec<CommunityFollower>, form: &CommunityFollowerForm) -> (inserted: bool)
    ensures
        inserted == !has_follower(old(fs)@, form.community_id, form.person_id),
        !inserted ==> final(fs)@ == old(fs)@,
        inserted ==> final(fs)@ == old(fs)@.push(
            (CommunityFollower {
                community_id: form.community_id,
                person_id: form.person_id,
                pending: form.pending,
            }),
        ),
        has_follower(final(fs)@, form.community_id, form.person_id),
        followers_unique(old(fs)@) ==> followers_unique(final(fs)@),
        forall|c: i32, p: i32|
            !(c == form.community_id && p == form.person_id) ==> has_follower(final(fs)@, c, p)
                == has_follower(old(fs)@, c, p),
{
    let n = fs.len();
    let mut i: usize = 0;
    while i < n
        invariant
            n == fs@.len(),
            0 <= i <= n,
            forall|t: int|
                0 <= t < i ==> !((#[trigger] fs@[t]).community_id == form.community_id
                    && fs@[t].person_id == form.person_id),
        decreases n - i,
    {
        if fs[i].community_id == form.community_id && fs[i].person_id == form.person_id {
            return false;
        }
        i = i + 1;
    }
    let rec = CommunityFollower {
        community_id: form.community_id,
        person_id: form.person_id,
        pending: form.pending,
    };
    fs.push(rec);
    proof {
        let pre = old(fs)@;
        assert(fs@[pre.len() as int].community_id == form.community_id);
        assert forall|c: i32, p: i32|
            !(c == form.community_id && p == form.person_id) implies has_follower(fs@, c, p)
            == has_follower(pre, c, p) by {
            if has_follower(fs@, c, p) {
                let w = choose|t: int|
                    0 <= t < fs@.len() && (#[trigger] fs@[t]).community_id == c && fs@[t].person_id
                        == p;
                assert(w < pre.len() && pre[w].community_id == c && pre[w].person_id == p);
            }
            if has_follower(pre, c, p) {
                let w = choose|t: int|
                    0 <= t < pre.len() && (#[trigger] pre[t]).community_id == c && pre[t].person_id
                        == p;
                assert(fs@[w].community_id == c && fs@[w].person_id == p);
            }
        }
        assert forall|a: int, b: int|
            followers_unique(pre) && 0 <= a < b < fs@.len() implies !((#[trigger] fs@[a]).community_id
            == (#[trigger] fs@[b]).community_id && fs@[a].person_id == fs@[b].person_id) by {
            if b < pre.len() {
                assert(fs@[a] == pre[a] && fs@[b] == pre[b]);
            } else {
                assert(fs@[a] == pre[a]);
            }
        }
    }
    true
}

/// Removes the follower relation the form describes, if it is there: a
/// pair that is absent is tolerated, and the call says so.
pub fn unfollow(fs: &mut Vec<CommunityFollower>, form: &CommunityFollowerForm) -> (removed: bool)
    requires
        followers_unique(old(fs)@),
    ensures
        removed == has_follower(old(fs)@, form.community_id, form.person_id),
        !removed ==> final(fs)@ == old(fs)@,
        followers_unique(final(fs)@),
        !has_follower(final(fs)@, form.community_id, form.person_id),
        forall|c: i32, p: i32|
            !(c == form.community_id && p == form.person_id) ==> has_follower(final(fs)@, c, p)
                == has_follower(old(fs)@, c, p),
        final(fs)@.len() + (if removed {
            1int
        } else {
            0int
        }) == old(fs)@.len(),
{
    let n = fs.len();
    let mut i: usize = 0;
    while i < n
        invariant
            n == fs@.len(),
            fs@ == old(fs)@,
            followers_unique(fs@),
            0 <= i <= n,
            forall|t: int|
                0 <= t < i ==> !((#[trigger] fs@[t]).community_id == form.community_id
                    && fs@[t].person_id == form.person_id),
        decreases n - i,
    {
        if fs[i].community_id == form.community_id && fs[i].person_id == form.person_id {
            let ghost pre = fs@;
            fs.remove(i);
            proof {
                lemma_follower_remove(pre, fs@, i as int);
            }
            return true;
        }
        i = i + 1;
    }
    false
}

} // verus!

verus! {

/// What removing index `i` does to a ban list; the mirror of
/// `lemma_follower_remove`.
proof fn lemma_ban_remove(pre: Seq<CommunityPersonBan>, post: Seq<CommunityPersonBan>, i: int)
    requires
        bans_unique(pre),
        0 <= i < pre.len(),
        post == pre.remove(i),
    ensures
        bans_unique(post),
        !has_ban(post, pre[i].community_id, pre[i].person_id),
        forall|c: i32, p: i32|
            !(c == pre[i].community_id && p == pre[i].person_id) ==> has_ban(post, c, p) == has_ban(
                pre,
                c,
                p,
            ),
        post.len() == pre.len() - 1,
{
    pre.remove_ensures(i);
    assert forall|a: int, b: int| 0 <= a < b < post.len() implies !((#[trigger] post[a]).community_id
        == (#[trigger] post[b]).community_id && post[a].person_id == post[b].person_id) by {
        let a2: int = if a < i {
            a
        } else {
            a + 1
        };
        let b2: int = if b < i {
            b
        } else {
            b + 1
        };
        assert(post[a] == pre[a2]);
        assert(post[b] == pre[b2]);
    }
    assert forall|t: int| 0 <= t < post.len() implies !((#[trigger] post[t]).community_id
        == pre[i].community_id && post[t].person_id == pre[i].person_id) by {
        let t2: int = if t < i {
            t
        } else {
            t + 1
        };
        assert(post[t] == pre[t2]);
    }
    assert forall|c: i32, p: i32|
        !(c == pre[i].community_id && p == pre[i].person_id) implies has_ban(post, c, p) == has_ban(
        pre,
        c,
        p,
    ) by {
        if has_ban(post, c, p) {
            let w = choose|t: int|
                0 <= t < post.len() && (#[trigger] post[t]).community_id == c && post[t].person_id
                    == p;
            let w2: int = if w < i {
                w
            } else {
                w + 1
            };
            assert(pre[w2].community_id == c && pre[w2].person_id == p);
        }
        if has_ban(pre, c, p) {
            let w = choose|t: int|
                0 <= t < pre.len() && (#[trigger] pre[t]).community_id == c && pre[t].person_id
                    == p;
            let w2: int = if w < i {
                w
            } else {
                w - 1
            };
            assert(w != i);
            assert(post[w2] == pre[w]);
        }
    }
}

/// Records the ban the form describes, once; a pair already banned is
/// left as it is.
pub fn ban(bs: &mut Vec<CommunityPersonBan>, form: &CommunityPersonBanForm) -> (inserted: bool)
    ensures
        inserted == !has_ban(old(bs)@, form.community_id, form.person_id),
        !inserted ==> final(bs)@ == old(bs)@,
        inserted ==> final(bs)@ == old(bs)@.push(
            (CommunityPersonBan { community_id: form.community_id, person_id: form.person_id }),
        ),
        has_ban(final(bs)@, form.community_id, form.person_id),
        bans_unique(old(bs)@) ==> bans_unique(final(bs)@),
        forall|c: i32, p: i32|
            !(c == form.community_id && p == form.person_id) ==> has_ban(final(bs)@, c, p)
                == has_ban(old(bs)@, c, p),
{
    let n = bs.len();
    let mut i: usize = 0;
    while i < n
        invariant
            n == bs@.len(),
            0 <= i <= n,
            forall|t: int|
                0 <= t < i ==> !((#[trigger] bs@[t]).community_id == form.community_id
                    && bs@[t].person_id == form.person_id),
        decreases n - i,
    {
        if bs[i].community_id == form.community_id && bs[i].person_id == form.person_id {
            return false;
        }
        i = i + 1;
    }
    let rec = CommunityPersonBan { community_id: form.community_id, person_id: form.person_id };
    bs.push(rec);
    proof {
        let pre = old(bs)@;
        assert(bs@[pre.len() as int].community_id == form.community_id);
        assert forall|c: i32, p: i32|
            !(c == form.community_id && p == form.person_id) implies has_ban(bs@, c, p) == has_ban(
            pre,
            c,
            p,
        ) by {
            if has_ban(bs@, c, p) {
                let w = choose|t: int|
                    0 <= t < bs@.len() && (#[trigger] bs@[t]).community_id == c && bs@[t].person_id
                        == p;
                assert(w < pre.len() && pre[w].community_id == c && pre[w].person_id == p);
            }
            if has_ban(pre, c, p) {
                let w = choose|t: int|
                    0 <= t < pre.len() && (#[trigger] pre[t]).community_id == c && pre[t].person_id
                        == p;
                assert(bs@[w].community_id == c && bs@[w].person_id == p);
            }
        }
        assert forall|a: int, b: int| bans_unique(pre) && 0 <= a < b < bs@.len() implies !((
        #[trigger] bs@[a]).community_id == (#[trigger] bs@[b]).community_id && bs@[a].person_id
            == bs@[b].person_id) by {
            if b < pre.len() {
                assert(bs@[a] == pre[a] && bs@[b] == pre[b]);
            } else {
                assert(bs@[a] == pre[a]);
            }
        }
    }
    true
}

/// Lifts the ban the form describes, if it is there; a pair not banned
/// is tolerated.
pub fn unban(bs: &mut Vec<CommunityPersonBan>, form: &CommunityPersonBanForm) -> (removed: bool)
    requires
        bans_unique(old(bs)@),
    ensures
        removed == has_ban(old(bs)@, form.community_id, form.person_id),
        !removed ==> final(bs)@ == old(bs)@,
        bans_unique(final(bs)@),
        !has_ban(final(bs)@, form.community_id, form.person_id),
        forall|c: i32, p: i32|
            !(c == form.community_id && p == form.person_id) ==> has_ban(final(bs)@, c, p)
                == has_ban(old(bs)@, c, p),
        final(bs)@.len() + (if removed {
            1int
        } else {
            0int
        }) == old(bs)@.len(),
{
    let n = bs.len();
    let mut i: usize = 0;
    while i < n
        invariant
            n == bs@.len(),
            bs@ == old(bs)@,
            bans_unique(bs@),
            0 <= i <= n,
            forall|t: int|
                0 <= t < i ==> !((#[trigger] bs@[t]).community_id == form.community_id
                    && bs@[t].person_id == form.person_id),
        decreases n - i,
    {
        if bs[i].community_id == form.community_id && bs[i].person_id == form.person_id {
            let ghost pre = bs@;
            bs.remove(i);
            proof {
                lemma_ban_remove(pre, bs@, i as int);
            }
            return true;
        }
        i = i + 1;
    }
    false
}

} // verus!

verus! {

/// What removing index `i` does to a moderator list; the mirror of
/// `lemma_follower_remove`.
proof fn lemma_moderator_remove(pre: Seq<CommunityModerator>, post: Seq<CommunityModerator>, i: int)
    requires
        moderators_unique(pre),
        0 <= i < pre.len(),
        post == pre.remove(i),
    ensures
        moderators_unique(post),
        !has_moderator(post, pre[i].community_id, pre[i].person_id),
        forall|c: i32, p: i32|
            !(c == pre[i].community_id && p == pre[i].person_id) ==> has_moderator(post, c, p)
                == has_moderator(pre, c, p),
        post.len() == pre.len() - 1,
        forall|t: int|
            0 <= t < post.len() ==> #[trigger] post[t] == (if t < i {
                pre[t]
            } else {
                pre[t + 1]
            }),
{
    pre.remove_ensures(i);
    assert forall|a: int, b: int| 0 <= a < b < post.len() implies !((#[trigger] post[a]).community_id
        == (#[trigger] post[b]).community_id && post[a].person_id == post[b].person_id) by {
        let a2: int = if a < i {
            a
        } else {
            a + 1
        };
        let b2: int = if b < i {
            b
        } else {
            b + 1
        };
        assert(post[a] == pre[a2]);
        assert(post[b] == pre[b2]);
    }
    assert forall|t: int| 0 <= t < post.len() implies !((#[trigger] post[t]).community_id
        == pre[i].community_id && post[t].person_id == pre[i].person_id) by {
        let t2: int = if t < i {
            t
        } else {
            t + 1
        };
        assert(post[t] == pre[t2]);
    }
    assert forall|c: i32, p: i32|
        !(c == pre[i].community_id && p == pre[i].person_id) implies has_moderator(post, c, p)
        == has_moderator(pre, c, p) by {
        if has_moderator(post, c, p) {
            let w = choose|t: int|
                0 <= t < post.len() && (#[trigger] post[t]).community_id == c && post[t].person_id
                    == p;
            let w2: int = if w < i {
                w
            } else {
                w + 1
            };
            assert(pre[w2].community_id == c && pre[w2].person_id == p);
        }
        if has_moderator(pre, c, p) {
            let w = choose|t: int|
                0 <= t < pre.len() && (#[trigger] pre[t]).community_id == c && pre[t].person_id
                    == p;
            let w2: int = if w < i {
                w
            } else {
                w - 1
            };
            assert(w != i);
            assert(post[w2] == pre[w]);
        }
    }
}

/// Seats the moderator the form describes, once; a seat already held is
/// left as it is.
pub fn join(ms: &mut Vec<CommunityModerator>, form: &CommunityModeratorForm) -> (inserted: bool)
    ensures
        inserted == !has_moderator(old(ms)@, form.community_id, form.person_id),
        !inserted ==> final(ms)@ == old(ms)@,
        inserted ==> final(ms)@ == old(ms)@.push(
            (CommunityModerator { community_id: form.community_id, person_id: form.person_id }),
        ),
        has_moderator(final(ms)@, form.community_id, form.person_id),
        moderators_unique(old(ms)@) ==> moderators_unique(final(ms)@),
        forall|c: i32, p: i32|
            !(c == form.community_id && p == form.person_id) ==> has_moderator(final(ms)@, c, p)
                == has_moderator(old(ms)@, c, p),
{
    let n = ms.len();
    let mut i: usize = 0;
    while i < n
        invariant
            n == ms@.len(),
            0 <= i <= n,
            forall|t: int|
                0 <= t < i ==> !((#[trigger] ms@[t]).community_id == form.community_id
                    && ms@[t].person_id == form.person_id),
        decreases n - i,
    {
        if ms[i].community_id == form.community_id && ms[i].person_id == form.person_id {
            return false;
        }
        i = i + 1;
    }
    let rec = CommunityModerator { community_id: form.community_id, person_id: form.person_id };
    ms.push(rec);
    proof {
        let pre = old(ms)@;
        assert(ms@[pre.len() as int].community_id == form.community_id);
        assert forall|c: i32, p: i32|
            !(c == form.community_id && p == form.person_id) implies has_moderator(ms@, c, p)
            == has_moderator(pre, c, p) by {
            if has_moderator(ms@, c, p) {
                let w = choose|t: int|
                    0 <= t < ms@.len() && (#[trigger] ms@[t]).community_id == c && ms@[t].person_id
                        == p;
                assert(w < pre.len() && pre[w].community_id == c && pre[w].person_id == p);
            }
            if has_moderator(pre, c, p) {
                let w = choose|t: int|
                    0 <= t < pre.len() && (#[trigger] pre[t]).community_id == c && pre[t].person_id
                        == p;
                assert(ms@[w].community_id == c && ms@[w].person_id == p);
            }
        }
        assert forall|a: int, b: int| moderators_unique(pre) && 0 <= a < b < ms@.len() implies !((
        #[trigger] ms@[a]).community_id == (#[trigger] ms@[b]).community_id && ms@[a].person_id
            == ms@[b].person_id) by {
            if b < pre.len() {
                assert(ms@[a] == pre[a] && ms@[b] == pre[b]);
            } else {
                assert(ms@[a] == pre[a]);
            }
        }
    }
    true
}

/// Vacates the seat the form describes, if it is held; a seat not held
/// is tolerated.
pub fn leave(ms: &mut Vec<CommunityModerator>, form: &CommunityModeratorForm) -> (removed: bool)
    requires
        moderators_unique(old(ms)@),
    ensures
        removed == has_moderator(old(ms)@, form.community_id, form.person_id),
        !removed ==> final(ms)@ == old(ms)@,
        moderators_unique(final(ms)@),
        !has_moderator(final(ms)@, form.community_id, form.person_id),
        forall|c: i32, p: i32|
            !(c == form.community_id && p == form.person_id) ==> has_moderator(final(ms)@, c, p)
                == has_moderator(old(ms)@, c, p),
        final(ms)@.len() + (if removed {
            1int
        } else {
            0int
        }) == old(ms)@.len(),
{
    let n = ms.len();
    let mut i: usize = 0;
    while i < n
        invariant
            n == ms@.len(),
            ms@ == old(ms)@,
            moderators_unique(ms@),
            0 <= i <= n,
            forall|t: int|
                0 <= t < i ==> !((#[trigger] ms@[t]).community_id == form.community_id
                    && ms@[t].person_id == form.person_id),
        decreases n - i,
    {
        if ms[i].community_id == form.community_id && ms[i].person_id == form.person_id {
            let ghost pre = ms@;
            ms.remove(i);
            proof {
                lemma_moderator_remove(pre, ms@, i as int);
            }
            return true;
        }
        i = i + 1;
    }
    false
}

/// Vacates every seat of community `c`, so the seats can be granted anew
/// in a chosen order.
pub fn delete_for_community(ms: &mut Vec<CommunityModerator>, c: i32)
    requires
        moderators_unique(old(ms)@),
    ensures
        moderators_unique(final(ms)@),
        forall|p: i32| !has_moderator(final(ms)@, c, p),
        forall|c2: i32, p: i32|
            c2 != c ==> has_moderator(final(ms)@, c2, p) == has_moderator(old(ms)@, c2, p),
{
    let mut i: usize = 0;
    while i < ms.len()
        invariant
            moderators_unique(ms@),
            0 <= i <= ms@.len(),
            forall|t: int| 0 <= t < i ==> (#[trigger] ms@[t]).community_id != c,
            forall|c2: i32, p: i32|
                c2 != c ==> has_moderator(ms@, c2, p) == has_moderator(old(ms)@, c2, p),
        decreases ms@.len() - i,
    {
        if ms[i].community_id == c {
            let ghost pre = ms@;
            ms.remove(i);
            proof {
                lemma_moderator_remove(pre, ms@, i as int);
                assert forall|t: int| 0 <= t < i implies (#[trigger] ms@[t]).community_id != c by {
                    assert(ms@[t] == pre[t]);
                }
            }
        } else {
            i = i + 1;
        }
    }
    assert forall|p: i32| !has_moderator(ms@, c, p) by {
        if has_moderator(ms@, c, p) {
            let w = choose|t: int|
                0 <= t < ms@.len() && (#[trigger] ms@[t]).community_id == c && ms@[t].person_id
                    == p;
        }
    }
}

} // verus!

verus! {

/// What removing index `i` does to a vote list; the mirror of
/// `lemma_follower_remove`.
proof fn lemma_like_remove(pre: Seq<PostLike>, post: Seq<PostLike>, i: int)
    requires
        likes_unique(pre),
        0 <= i < pre.len(),
        post == pre.remove(i),
    ensures
        likes_unique(post),
        !has_like(post, pre[i].post_id, pre[i].person_id),
        forall|t2: i32, p: i32|
            !(t2 == pre[i].post_id && p == pre[i].person_id) ==> has_like(post, t2, p) == has_like(
                pre,
                t2,
                p,
            ),
        post.len() == pre.len() - 1,
{
    pre.remove_ensures(i);
    assert forall|a: int, b: int| 0 <= a < b < post.len() implies !((#[trigger] post[a]).post_id
        == (#[trigger] post[b]).post_id && post[a].person_id == post[b].person_id) by {
        let a2: int = if a < i {
            a
        } else {
            a + 1
        };
        let b2: int = if b < i {
            b
        } else {
            b + 1
        };
        assert(post[a] == pre[a2]);
        assert(post[b] == pre[b2]);
    }
    assert forall|t: int| 0 <= t < post.len() implies !((#[trigger] post[t]).post_id
        == pre[i].post_id && post[t].person_id == pre[i].person_id) by {
        let t2: int = if t < i {
            t
        } else {
            t + 1
        };
        assert(post[t] == pre[t2]);
    }
    assert forall|t2: i32, p: i32|
        !(t2 == pre[i].post_id && p == pre[i].person_id) implies has_like(post, t2, p) == has_like(
        pre,
        t2,
        p,
    ) by {
        if has_like(post, t2, p) {
            let w = choose|t: int|
                0 <= t < post.len() && (#[trigger] post[t]).post_id == t2 && post[t].person_id
                    == p;
            let w2: int = if w < i {
                w
            } else {
                w + 1
            };
            assert(pre[w2].post_id == t2 && pre[w2].person_id == p);
        }
        if has_like(pre, t2, p) {
            let w = choose|t: int|
                0 <= t < pre.len() && (#[trigger] pre[t]).post_id == t2 && pre[t].person_id == p;
            let w2: int = if w < i {
                w
            } else {
                w - 1
            };
            assert(w != i);
            assert(post[w2] == pre[w]);
        }
    }
}

/// Casts or replaces the vote the form describes: a person's second vote
/// on the same post overwrites the first.
pub fn like(ls: &mut Vec<PostLike>, form: &PostLikeForm)
    requires
        likes_unique(old(ls)@),
    ensures
        likes_unique(final(ls)@),
        has_like(final(ls)@, form.post_id, form.person_id),
        forall|i: int|
            0 <= i < final(ls)@.len() && (#[trigger] final(ls)@[i]).post_id == form.post_id
                && final(ls)@[i].person_id == form.person_id ==> final(ls)@[i].score == form.score,
        forall|t2: i32, p: i32|
            !(t2 == form.post_id && p == form.person_id) ==> has_like(final(ls)@, t2, p)
                == has_like(old(ls)@, t2, p),
        !has_like(old(ls)@, form.post_id, form.person_id) ==> final(ls)@ == old(ls)@.push(
            (PostLike { post_id: form.post_id, person_id: form.person_id, score: form.score }),
        ),
{
    remove_like(ls, form.post_id, form.person_id);
    let ghost mid = ls@;
    let rec = PostLike { post_id: form.post_id, person_id: form.person_id, score: form.score };
    ls.push(rec);
    proof {
        assert(ls@[mid.len() as int] == rec);
        assert forall|t2: i32, p: i32|
            !(t2 == form.post_id && p == form.person_id) implies has_like(ls@, t2, p) == has_like(
            mid,
            t2,
            p,
        ) by {
            if has_like(ls@, t2, p) {
                let w = choose|t: int|
                    0 <= t < ls@.len() && (#[trigger] ls@[t]).post_id == t2 && ls@[t].person_id
                        == p;
                assert(w < mid.len() && mid[w].post_id == t2 && mid[w].person_id == p);
            }
            if has_like(mid, t2, p) {
                let w = choose|t: int|
                    0 <= t < mid.len() && (#[trigger] mid[t]).post_id == t2 && mid[t].person_id
                        == p;
                assert(ls@[w].post_id == t2 && ls@[w].person_id == p);
            }
        }
        assert forall|a: int, b: int| 0 <= a < b < ls@.len() implies !((#[trigger] ls@[a]).post_id
            == (#[trigger] ls@[b]).post_id && ls@[a].person_id == ls@[b].person_id) by {
            if b < mid.len() {
                assert(ls@[a] == mid[a] && ls@[b] == mid[b]);
            } else {
                assert(ls@[a] == mid[a]);
                if ls@[a].post_id == form.post_id && ls@[a].person_id == form.person_id {
                    assert(has_like(mid, form.post_id, form.person_id));
                }
            }
        }
        assert forall|t: int|
            0 <= t < ls@.len() && (#[trigger] ls@[t]).post_id == form.post_id && ls@[t].person_id
                == form.person_id implies ls@[t].score == form.score by {
            if t < mid.len() {
                assert(ls@[t] == mid[t]);
                assert(has_like(mid, form.post_id, form.person_id));
            }
        }
    }
}

/// Withdraws a person's vote on a post, if there is one.
pub fn remove_like(ls: &mut Vec<PostLike>, post_id: i32, person_id: i32) -> (removed: bool)
    requires
        likes_unique(old(ls)@),
    ensures
        removed == has_like(old(ls)@, post_id, person_id),
        !removed ==> final(ls)@ == old(ls)@,
        likes_unique(final(ls)@),
        !has_like(final(ls)@, post_id, person_id),
        forall|t2: i32, p: i32|
            !(t2 == post_id && p == person_id) ==> has_like(final(ls)@, t2, p) == has_like(
                old(ls)@,
                t2,
                p,
            ),
{
    let n = ls.len();
    let mut i: usize = 0;
    while i < n
        invariant
            n == ls@.len(),
            ls@ == old(ls)@,
            likes_unique(ls@),
            0 <= i <= n,
            forall|t: int|
                0 <= t < i ==> !((#[trigger] ls@[t]).post_id == post_id && ls@[t].person_id
                    == person_id),
        decreases n - i,
    {
        if ls[i].post_id == post_id && ls[i].person_id == person_id {
            let ghost pre = ls@;
            ls.remove(i);
            proof {
                lemma_like_remove(pre, ls@, i as int);
            }
            return true;
        }
        i = i + 1;
    }
    false
}

} // verus!

verus! {

/// The value an optional changeset field gives a boolean column: the new
/// value when one is supplied, else the current one.
pub open spec fn keep_bool(cur: bool, f: Option<bool>) -> bool {
    match f {
        Some(b) => b,
        None => cur,
    }
}

/// The value an optional changeset field gives a time column.
pub open spec fn keep_time(cur: i64, f: Option<i64>) -> i64 {
    match f {
        Some(t) => t,
        None => cur,
    }
}

/// True when `p` is the post a fresh insert of `form` creates: optional
/// flags fall back to their column defaults, a missing publication time
/// falls back to `now`.
pub open spec fn post_created(p: Post, form: PostForm, id: i32, now: i64) -> bool {
    &&& p.id == id
    &&& p.name == form.name
    &&& p.url == form.url
    &&& p.body == form.body
    &&& p.creator_id == form.creator_id
    &&& p.community_id == form.community_id
    &&& p.removed == keep_bool(false, form.removed)
    &&& p.locked == keep_bool(false, form.locked)
    &&& p.published == keep_time(now, form.published)
    &&& p.updated == form.updated
    &&& p.deleted == keep_bool(false, form.deleted)
    &&& p.nsfw == form.nsfw
    &&& p.stickied == keep_bool(false, form.stickied)
    &&& p.embed_title == form.embed_title
    &&& p.embed_description == form.embed_description
    &&& p.embed_html == form.embed_html
    &&& p.thumbnail_url == form.thumbnail_url
    &&& p.ap_id == form.ap_id.unwrap()
    &&& p.local == form.local
}

/// True when `p` is what overwriting `prev` with the changeset `form`
/// leaves: optional fields that are absent keep the current value.
pub open spec fn post_updated(p: Post, prev: Post, form: PostForm) -> bool {
    &&& p.id == prev.id
    &&& p.name == form.name
    &&& p.url == form.url
    &&& p.body == form.body
    &&& p.creator_id == form.creator_id
    &&& p.community_id == form.community_id
    &&& p.removed == keep_bool(prev.removed, form.removed)
    &&& p.locked == keep_bool(prev.locked, form.locked)
    &&& p.published == keep_time(prev.published, form.published)
    &&& p.updated == form.updated
    &&& p.deleted == keep_bool(prev.deleted, form.deleted)
    &&& p.nsfw == form.nsfw
    &&& p.stickied == keep_bool(prev.stickied, form.stickied)
    &&& p.embed_title == form.embed_title
    &&& p.embed_description == form.embed_description
    &&& p.embed_html == form.embed_html
    &&& p.thumbnail_url == form.thumbnail_url
    &&& p.ap_id == prev.ap_id
    &&& p.local == form.local
}

/// The post a form describes, with the given id and fallback publication
/// time.
fn build_post(form: &PostForm, id: i32, now: i64, ap_id: ObjectId, prev: Option<&Post>) -> (p:
    Post)
    requires
        match prev {
            Some(q) => id == q.id && ap_id == q.ap_id,
            None => (form.ap_id is Some) && ap_id == form.ap_id.unwrap(),
        },
    ensures
        match prev {
            Some(q) => post_updated(p, *q, *form),
            None => post_created(p, *form, id, now),
        },
        p.id == id,
        p.ap_id == ap_id,
{
    let (removed0, locked0, deleted0, stickied0, published0): (bool, bool, bool, bool, i64) =
        match prev {
        Some(q) => (q.removed, q.locked, q.deleted, q.stickied, q.published),
        None => (false, false, false, false, now),
    };
    Post {
        id,
        name: form.name.clone(),
        url: clone_opt_string(&form.url),
        body: clone_opt_string(&form.body),
        creator_id: form.creator_id,
        community_id: form.community_id,
        removed: match form.removed {
            Some(b) => b,
            None => removed0,
        },
        locked: match form.locked {
            Some(b) => b,
            None => locked0,
        },
        published: match form.published {
            Some(t) => t,
            None => published0,
        },
        updated: form.updated,
        deleted: match form.deleted {
            Some(b) => b,
            None => deleted0,
        },
        nsfw: form.nsfw,
        stickied: match form.stickied {
            Some(b) => b,
            None => stickied0,
        },
        embed_title: clone_opt_string(&form.embed_title),
        embed_description: clone_opt_string(&form.embed_description),
        embed_html: clone_opt_string(&form.embed_html),
        thumbnail_url: clone_opt_string(&form.thumbnail_url),
        ap_id,
        local: form.local,
    }
}

/// Creates the post a form describes. The new row takes the next free id;
/// the caller has already checked that no post carries the form's object
/// identifier.
pub fn create_post(ts: &mut Vec<Post>, next_id: &mut i32, form: &PostForm, now: i64) -> (id: i32)
    requires
        posts_unique(old(ts)@, *old(next_id)),
        *old(next_id) < i32::MAX,
        (form.ap_id is Some),
        !has_post_ap_id(old(ts)@, form.ap_id.unwrap().full@),
    ensures
        posts_unique(final(ts)@, *final(next_id)),
        *final(next_id) == *old(next_id) + 1,
        id == *old(next_id),
        final(ts)@.len() == old(ts)@.len() + 1,
        final(ts)@.drop_last() == old(ts)@,
        post_created(final(ts)@.last(), *form, id, now),
        has_post_ap_id(final(ts)@, form.ap_id.unwrap().full@),
        forall|other: Seq<char>|
            other != form.ap_id.unwrap().full@ ==> has_post_ap_id(final(ts)@, other)
                == has_post_ap_id(old(ts)@, other),
{
    let id = *next_id;
    let ap_id = match &form.ap_id {
        Some(a) => a.clone(),
        None => ObjectId { full: String::new(), domain: String::new() },
    };
    let p = build_post(form, id, now, ap_id, None);
    ts.push(p);
    *next_id = *next_id + 1;
    proof {
        let pre = old(ts)@;
        assert(ts@.drop_last() =~= pre);
        assert(ts@[pre.len() as int].ap_id.full@ == form.ap_id.unwrap().full@);
        assert forall|other: Seq<char>|
            other != form.ap_id.unwrap().full@ implies has_post_ap_id(ts@, other) == has_post_ap_id(
            pre,
            other,
        ) by {
            if has_post_ap_id(ts@, other) {
                let w = choose|t: int|
                    0 <= t < ts@.len() && (#[trigger] ts@[t]).ap_id.full@ == other;
                assert(w < pre.len() && pre[w].ap_id.full@ == other);
            }
            if has_post_ap_id(pre, other) {
                let w = choose|t: int|
                    0 <= t < pre.len() && (#[trigger] pre[t]).ap_id.full@ == other;
                assert(ts@[w].ap_id.full@ == other);
            }
        }
        assert forall|a: int, b: int| 0 <= a < b < ts@.len() implies (#[trigger] ts@[a]).id != (
        #[trigger] ts@[b]).id && ts@[a].ap_id.full@ != ts@[b].ap_id.full@ by {
            if b < pre.len() {
                assert(ts@[a] == pre[a] && ts@[b] == pre[b]);
            } else {
                assert(ts@[a] == pre[a]);
            }
        }
    }
    id
}

/// Overwrites the post at index `i` with what the changeset form gives.
/// The row keeps its id and its object identifier.
pub fn update_post(ts: &mut Vec<Post>, i: usize, form: &PostForm)
    requires
        i < old(ts)@.len(),
    ensures
        final(ts)@.len() == old(ts)@.len(),
        forall|t: int| 0 <= t < old(ts)@.len() && t != i ==> final(ts)@[t] == old(ts)@[t],
        post_updated(final(ts)@[i as int], old(ts)@[i as int], *form),
        forall|next: i32| posts_unique(old(ts)@, next) ==> posts_unique(final(ts)@, next),
        forall|other: Seq<char>| has_post_ap_id(final(ts)@, other) == has_post_ap_id(old(ts)@, other),
{
    let prev_id = ts[i].id;
    let ap_id = ts[i].ap_id.clone();
    let ghost pre = ts@;
    let p = {
        let prev = &ts[i];
        build_post(form, prev_id, 0, ap_id, Some(prev))
    };
    ts[i] = p;
    proof {
        let ii = i as int;
        assert(ts@ == pre.update(ii, p));
        assert forall|t: int| 0 <= t < pre.len() && t != ii implies ts@[t] == pre[t] by {
            assert(pre.update(ii, p)[t] == pre[t]);
        }
        assert(ts@[ii] == p);
        assert forall|next: i32| posts_unique(pre, next) implies posts_unique(ts@, next) by {
            assert forall|a: int, b: int| 0 <= a < b < ts@.len() implies (#[trigger] ts@[a]).id != (
            #[trigger] ts@[b]).id && ts@[a].ap_id.full@ != ts@[b].ap_id.full@ by {
                assert(ts@[a].id == pre[a].id && ts@[a].ap_id.full@ == pre[a].ap_id.full@);
                assert(ts@[b].id == pre[b].id && ts@[b].ap_id.full@ == pre[b].ap_id.full@);
            }
            assert forall|a: int| 0 <= a < ts@.len() implies (#[trigger] ts@[a]).id < next by {
                assert(ts@[a].id == pre[a].id);
            }
        }
        assert forall|other: Seq<char>| has_post_ap_id(ts@, other) == has_post_ap_id(pre, other) by {
            if has_post_ap_id(ts@, other) {
                let w = choose|t: int|
                    0 <= t < ts@.len() && (#[trigger] ts@[t]).ap_id.full@ == other;
                assert(pre[w].ap_id.full@ == other);
            }
            if has_post_ap_id(pre, other) {
                let w = choose|t: int|
                    0 <= t < pre.len() && (#[trigger] pre[t]).ap_id.full@ == other;
                assert(ts@[w].ap_id.full@ == other);
            }
        }
    }
}

/// Sets or clears the deleted flag of the post at index `i`; every other
/// field and every other post stays as it was.
pub fn set_post_deleted(ts: &mut Vec<Post>, i: usize, deleted: bool)
    requires
        i < old(ts)@.len(),
    ensures
        final(ts)@.len() == old(ts)@.len(),
        forall|t: int| 0 <= t < old(ts)@.len() && t != i ==> final(ts)@[t] == old(ts)@[t],
        final(ts)@[i as int] == (Post { deleted, ..old(ts)@[i as int] }),
        forall|next: i32| posts_unique(old(ts)@, next) ==> posts_unique(final(ts)@, next),
        forall|other: Seq<char>| has_post_ap_id(final(ts)@, other) == has_post_ap_id(old(ts)@, other),
{
    let ghost pre = ts@;
    let p = {
        let prev = &ts[i];
        Post {
            id: prev.id,
            name: prev.name.clone(),
            url: clone_opt_string(&prev.url),
            body: clone_opt_string(&prev.body),
            creator_id: prev.creator_id,
            community_id: prev.community_id,
            removed: prev.removed,
            locked: prev.locked,
            published: prev.published,
            updated: prev.updated,
            deleted,
            nsfw: prev.nsfw,
            stickied: prev.stickied,
            embed_title: clone_opt_string(&prev.embed_title),
            embed_description: clone_opt_string(&prev.embed_description),
            embed_html: clone_opt_string(&prev.embed_html),
            thumbnail_url: clone_opt_string(&prev.thumbnail_url),
            ap_id: prev.ap_id.clone(),
            local: prev.local,
        }
    };
    ts[i] = p;
    proof {
        let ii = i as int;
        assert(ts@ == pre.update(ii, p));
        assert forall|t: int| 0 <= t < pre.len() && t != ii implies ts@[t] == pre[t] by {
            assert(pre.update(ii, p)[t] == pre[t]);
        }
        assert(ts@[ii] == p);
        assert forall|next: i32| posts_unique(pre, next) implies posts_unique(ts@, next) by {
            assert forall|a: int, b: int| 0 <= a < b < ts@.len() implies (#[trigger] ts@[a]).id != (
            #[trigger] ts@[b]).id && ts@[a].ap_id.full@ != ts@[b].ap_id.full@ by {
                assert(ts@[a].id == pre[a].id && ts@[a].ap_id.full@ == pre[a].ap_id.full@);
                assert(ts@[b].id == pre[b].id && ts@[b].ap_id.full@ == pre[b].ap_id.full@);
            }
            assert forall|a: int| 0 <= a < ts@.len() implies (#[trigger] ts@[a]).id < next by {
                assert(ts@[a].id == pre[a].id);
            }
        }
        assert forall|other: Seq<char>| has_post_ap_id(ts@, other) == has_post_ap_id(pre, other) by {
            if has_post_ap_id(ts@, other) {
                let w = choose|t: int|
                    0 <= t < ts@.len() && (#[trigger] ts@[t]).ap_id.full@ == other;
                assert(pre[w].ap_id.full@ == other);
            }
            if has_post_ap_id(pre, other) {
                let w = choose|t: int|
                    0 <= t < pre.len() && (#[trigger] pre[t]).ap_id.full@ == other;
                assert(ts@[w].ap_id.full@ == other);
            }
        }
    }
}

/// Creates the community row a fresh insert of `c` gives; the caller has
/// already ruled out a duplicate name or actor identifier. The new row
/// takes the next free id, whatever id the argument carried.
pub fn insert_community(cs: &mut Vec<Community>, next_id: &mut i32, c: Community) -> (id: i32)
    requires
        communities_unique(old(cs)@, *old(next_id)),
        *old(next_id) < i32::MAX,
        !has_community_name(old(cs)@, c.name@),
        !has_community_actor(old(cs)@, c.actor_id.full@),
    ensures
        communities_unique(final(cs)@, *final(next_id)),
        *final(next_id) == *old(next_id) + 1,
        id == *old(next_id),
        final(cs)@.len() == old(cs)@.len() + 1,
        final(cs)@.drop_last() == old(cs)@,
        final(cs)@.last() == (Community { id, ..c }),
        has_community_name(final(cs)@, c.name@),
        has_community_actor(final(cs)@, c.actor_id.full@),
{
    let id = *next_id;
    let ghost cg = c;
    let row = Community { id, ..c };
    cs.push(row);
    *next_id = *next_id + 1;
    proof {
        let pre = old(cs)@;
        assert(cs@.drop_last() =~= pre);
        assert(cs@[pre.len() as int].name@ == cg.name@);
        assert(cs@[pre.len() as int].actor_id.full@ == cg.actor_id.full@);
        assert forall|a: int, b: int| 0 <= a < b < cs@.len() implies (#[trigger] cs@[a]).id != (
        #[trigger] cs@[b]).id && cs@[a].name@ != cs@[b].name@ && cs@[a].actor_id.full@
            != cs@[b].actor_id.full@ by {
            if b < pre.len() {
                assert(cs@[a] == pre[a] && cs@[b] == pre[b]);
            } else {
                assert(cs@[a] == pre[a]);
            }
        }
    }
    id
}

} // verus!

verus! {

/// A pair that is in no relation is counted zero times.
pub proof fn lemma_follower_count_zero(fs: Seq<CommunityFollower>, c: i32, p: i32)
    requires
        !has_follower(fs, c, p),
    ensures
        follower_count(fs, c, p) == 0,
    decreases fs.len(),
{
    if fs.len() > 0 {
        assert(!has_follower(fs.drop_last(), c, p)) by {
            if has_follower(fs.drop_last(), c, p) {
                let w = choose|i: int|
                    0 <= i < fs.drop_last().len() && (#[trigger] fs.drop_last()[i]).community_id
                        == c && fs.drop_last()[i].person_id == p;
                assert(fs[w].community_id == c && fs[w].person_id == p);
            }
        }
        lemma_follower_count_zero(fs.drop_last(), c, p);
        assert(!(fs.last().community_id == c && fs.last().person_id == p));
    }
}

/// With unique pairs, a pair that is present is counted exactly once:
/// "follow" absorbed twice still leaves a single relation.
pub proof fn lemma_follower_count_one(fs: Seq<CommunityFollower>, c: i32, p: i32)
    requires
        followers_unique(fs),
        has_follower(fs, c, p),
    ensures
        follower_count(fs, c, p) == 1,
    decreases fs.len(),
{
    let last = fs.len() - 1;
    if fs.last().community_id == c && fs.last().person_id == p {
        assert(!has_follower(fs.drop_last(), c, p)) by {
            if has_follower(fs.drop_last(), c, p) {
                let w = choose|i: int|
                    0 <= i < fs.drop_last().len() && (#[trigger] fs.drop_last()[i]).community_id
                        == c && fs.drop_last()[i].person_id == p;
                assert(fs[w].community_id == c && fs[w].person_id == p);
                assert(0 <= w < last);
            }
        }
        lemma_follower_count_zero(fs.drop_last(), c, p);
    } else {
        let w = choose|i: int|
            0 <= i < fs.len() && (#[trigger] fs[i]).community_id == c && fs[i].person_id == p;
        assert(w < last);
        assert(fs.drop_last()[w] == fs[w]);
        assert(has_follower(fs.drop_last(), c, p));
        assert(followers_unique(fs.drop_last())) by {
            assert forall|a: int, b: int| 0 <= a < b < fs.drop_last().len() implies !((
            #[trigger] fs.drop_last()[a]).community_id == (#[trigger] fs.drop_last()[b]).community_id
                && fs.drop_last()[a].person_id == fs.drop_last()[b].person_id) by {
                assert(fs.drop_last()[a] == fs[a] && fs.drop_last()[b] == fs[b]);
            }
        }
        lemma_follower_count_one(fs.drop_last(), c, p);
    }
}

/// An activity id that is not recorded is counted zero times.
pub proof fn lemma_dedup_count_zero(ds: Seq<DedupRecord>, id: Seq<char>)
    requires
        !dedup_has(ds, id),
    ensures
        dedup_count(ds, id) == 0,
    decreases ds.len(),
{
    if ds.len() > 0 {
        assert(!dedup_has(ds.drop_last(), id)) by {
            if dedup_has(ds.drop_last(), id) {
                let w = choose|i: int|
                    0 <= i < ds.drop_last().len() && (#[trigger] ds.drop_last()[i]).ap_id.full@
                        == id;
                assert(ds[w].ap_id.full@ == id);
            }
        }
        lemma_dedup_count_zero(ds.drop_last(), id);
        assert(ds.last().ap_id.full@ != id);
    }
}

/// With unique ids, a recorded activity id is counted exactly once: a
/// replay leaves a single dedup record behind, never two.
pub proof fn lemma_dedup_count_one(ds: Seq<DedupRecord>, id: Seq<char>)
    requires
        dedup_unique(ds),
        dedup_has(ds, id),
    ensures
        dedup_count(ds, id) == 1,
    decreases ds.len(),
{
    let last = ds.len() - 1;
    if ds.last().ap_id.full@ == id {
        assert(!dedup_has(ds.drop_last(), id)) by {
            if dedup_has(ds.drop_last(), id) {
                let w = choose|i: int|
                    0 <= i < ds.drop_last().len() && (#[trigger] ds.drop_last()[i]).ap_id.full@
                        == id;
                assert(ds[w].ap_id.full@ == id);
                assert(0 <= w < last);
            }
        }
        lemma_dedup_count_zero(ds.drop_last(), id);
    } else {
        let w = choose|i: int| 0 <= i < ds.len() && (#[trigger] ds[i]).ap_id.full@ == id;
        assert(w < last);
        assert(ds.drop_last()[w] == ds[w]);
        assert(dedup_has(ds.drop_last(), id));
        assert(dedup_unique(ds.drop_last())) by {
            assert forall|a: int, b: int| 0 <= a < b < ds.drop_last().len() implies (#[trigger] ds.drop_last()[a]).ap_id.full@
                != (#[trigger] ds.drop_last()[b]).ap_id.full@ by {
                assert(ds.drop_last()[a] == ds[a] && ds.drop_last()[b] == ds[b]);
            }
        }
        lemma_dedup_count_one(ds.drop_last(), id);
    }
}

} // verus!

verus! {

/// True when no two persons of `ps` share an actor identifier.
pub open spec fn person_actors_unique(ps: Seq<Person>) -> bool {
    forall|i: int, j: int|
        0 <= i < j < ps.len() ==> (#[trigger] ps[i]).actor_id.full@ != (#[trigger] ps[j]).actor_id.full@
}

/// True when no two communities of `cs` share an actor identifier.
pub open spec fn community_actors_unique(cs: Seq<Community>) -> bool {
    forall|i: int, j: int|
        0 <= i < j < cs.len() ==> (#[trigger] cs[i]).actor_id.full@ != (#[trigger] cs[j]).actor_id.full@
}

/// True when no two communities of `cs` share a name.
pub open spec fn community_names_unique(cs: Seq<Community>) -> bool {
    forall|i: int, j: int|
        0 <= i < j < cs.len() ==> (#[trigger] cs[i]).name@ != (#[trigger] cs[j]).name@
}

/// True when no two posts of `ts` share an object identifier.
pub open spec fn post_ap_ids_unique(ts: Seq<Post>) -> bool {
    forall|i: int, j: int|
        0 <= i < j < ts.len() ==> (#[trigger] ts[i]).ap_id.full@ != (#[trigger] ts[j]).ap_id.full@
}

/// True when the pair (community `c`, person `p`) is banned.
pub fn is_banned(bs: &Vec<CommunityPersonBan>, c: i32, p: i32) -> (r: bool)
    ensures
        r == has_ban(bs@, c, p),
{
    let mut i: usize = 0;
    while i < bs.len()
        invariant
            0 <= i <= bs@.len(),
            forall|t: int|
                0 <= t < i ==> !((#[trigger] bs@[t]).community_id == c && bs@[t].person_id == p),
        decreases bs@.len() - i,
    {
        if bs[i].community_id == c && bs[i].person_id == p {
            return true;
        }
        i = i + 1;
    }
    false
}

} // verus!

verus! {

/// The index of the community with row id `id`, if any.
pub fn find_community_by_id(cs: &Vec<Community>, id: i32) -> (r: Option<usize>)
    ensures
        match r {
            Some(i) => i < cs@.len() && cs@[i as int].id == id,
            None => forall|t: int| 0 <= t < cs@.len() ==> (#[trigger] cs@[t]).id != id,
        },
{
    let mut i: usize = 0;
    while i < cs.len()
        invariant
            0 <= i <= cs@.len(),
            forall|t: int| 0 <= t < i ==> (#[trigger] cs@[t]).id != id,
        decreases cs@.len() - i,
    {
        if cs[i].id == id {
            return Some(i);
        }
        i = i + 1;
    }
    None
}

/// Marks every post of `creator_id` inside community `community_id` as
/// removed (or restores them); every other field and every other post
/// stays as it was.
pub fn update_removed_for_creator(ts: &mut Vec<Post>, creator_id: i32, community_id: i32, removed: bool)
    ensures
        final(ts)@.len() == old(ts)@.len(),
        forall|t: int|
            0 <= t < old(ts)@.len() && old(ts)@[t].creator_id == creator_id
                && old(ts)@[t].community_id == community_id ==> #[trigger] final(ts)@[t] == (Post {
                removed,
                ..old(ts)@[t]
            }),
        forall|t: int|
            0 <= t < old(ts)@.len() && !(old(ts)@[t].creator_id == creator_id
                && old(ts)@[t].community_id == community_id) ==> #[trigger] final(ts)@[t] == old(
                ts,
            )@[t],
        forall|next: i32| posts_unique(old(ts)@, next) ==> posts_unique(final(ts)@, next),
{
    let n = ts.len();
    let mut i: usize = 0;
    while i < n
        invariant
            n == ts@.len(),
            n == old(ts)@.len(),
            0 <= i <= n,
            forall|t: int|
                0 <= t < i && old(ts)@[t].creator_id == creator_id && old(ts)@[t].community_id
                    == community_id ==> #[trigger] ts@[t] == (Post { removed, ..old(ts)@[t] }),
            forall|t: int|
                0 <= t < n && !(t < i && old(ts)@[t].creator_id == creator_id
                    && old(ts)@[t].community_id == community_id) ==> #[trigger] ts@[t] == old(
                    ts,
                )@[t],
        decreases n - i,
    {
        if ts[i].creator_id == creator_id && ts[i].community_id == community_id {
            let prev = &ts[i];
            let p = Post {
                id: prev.id,
                name: prev.name.clone(),
                url: clone_opt_string(&prev.url),
                body: clone_opt_string(&prev.body),
                creator_id: prev.creator_id,
                community_id: prev.community_id,
                removed,
                locked: prev.locked,
                published: prev.published,
                updated: prev.updated,
                deleted: prev.deleted,
                nsfw: prev.nsfw,
                stickied: prev.stickied,
                embed_title: clone_opt_string(&prev.embed_title),
                embed_description: clone_opt_string(&prev.embed_description),
                embed_html: clone_opt_string(&prev.embed_html),
                thumbnail_url: clone_opt_string(&prev.thumbnail_url),
                ap_id: prev.ap_id.clone(),
                local: prev.local,
            };
            let ghost pre = ts@;
            ts[i] = p;
            proof {
                assert(ts@ == pre.update(i as int, p));
                assert forall|t: int| 0 <= t < n && t != i implies ts@[t] == pre[t] by {
                    assert(pre.update(i as int, p)[t] == pre[t]);
                }
            }
        }
        i = i + 1;
    }
    proof {
        assert forall|next: i32| posts_unique(old(ts)@, next) implies posts_unique(ts@, next) by {
            assert forall|a: int, b: int| 0 <= a < b < ts@.len() implies (#[trigger] ts@[a]).id != (
            #[trigger] ts@[b]).id && ts@[a].ap_id.full@ != ts@[b].ap_id.full@ by {
                assert(ts@[a].id == old(ts)@[a].id && ts@[a].ap_id.full@ == old(
                    ts,
                )@[a].ap_id.full@);
                assert(ts@[b].id == old(ts)@[b].id && ts@[b].ap_id.full@ == old(
                    ts,
                )@[b].ap_id.full@);
            }
            assert forall|a: int| 0 <= a < ts@.len() implies (#[trigger] ts@[a]).id < next by {
                assert(ts@[a].id == old(ts)@[a].id);
            }
        }
    }
}

} // verus!

verus! {

/// True when person `p` holds a moderator seat of community `c`.
pub fn has_moderator_seat(ms: &Vec<CommunityModerator>, c: i32, p: i32) -> (r: bool)
    ensures
        r == has_moderator(ms@, c, p),
{
    let mut i: usize = 0;
    while i < ms.len()
        invariant
            0 <= i <= ms@.len(),
            forall|t: int|
                0 <= t < i ==> !((#[trigger] ms@[t]).community_id == c && ms@[t].person_id == p),
        decreases ms@.len() - i,
    {
        if ms[i].community_id == c && ms[i].person_id == p {
            return true;
        }
        i = i + 1;
    }
    false
}

} // verus!

verus! {

/// Overwrites the community at index `i`. The row must keep its id, its
/// name and its actor identifier, so every uniqueness invariant holds
/// on.
pub fn replace_community(cs: &mut Vec<Community>, i: usize, c: Community)
    requires
        i < old(cs)@.len(),
        c.id == old(cs)@[i as int].id,
        c.name@ == old(cs)@[i as int].name@,
        c.actor_id.full@ == old(cs)@[i as int].actor_id.full@,
    ensures
        final(cs)@.len() == old(cs)@.len(),
        final(cs)@[i as int] == c,
        forall|t: int| 0 <= t < old(cs)@.len() && t != i ==> final(cs)@[t] == old(cs)@[t],
        forall|next: i32| communities_unique(old(cs)@, next) ==> communities_unique(final(cs)@, next),
{
    let ghost pre = cs@;
    cs[i] = c;
    proof {
        let ii = i as int;
        assert(cs@ == pre.update(ii, c));
        assert forall|t: int| 0 <= t < pre.len() && t != ii implies cs@[t] == pre[t] by {
            assert(pre.update(ii, c)[t] == pre[t]);
        }
        assert(cs@[ii] == c);
        assert forall|next: i32| communities_unique(pre, next) implies communities_unique(
            cs@,
            next,
        ) by {
            assert forall|a: int, b: int| 0 <= a < b < cs@.len() implies (#[trigger] cs@[a]).id != (
            #[trigger] cs@[b]).id && cs@[a].name@ != cs@[b].name@ && cs@[a].actor_id.full@
                != cs@[b].actor_id.full@ by {
                assert(cs@[a].id == pre[a].id && cs@[a].name@ == pre[a].name@
                    && cs@[a].actor_id.full@ == pre[a].actor_id.full@);
                assert(cs@[b].id == pre[b].id && cs@[b].name@ == pre[b].name@
                    && cs@[b].actor_id.full@ == pre[b].actor_id.full@);
            }
            assert forall|a: int| 0 <= a < cs@.len() implies (#[trigger] cs@[a]).id < next by {
                assert(cs@[a].id == pre[a].id);
            }
        }
    }
}

/// The person ids holding a moderator seat of community `c`, in seat
/// order.
pub fn moderator_ids_for_community(ms: &Vec<CommunityModerator>, c: i32) -> (r: Vec<i32>)
    ensures
        forall|p: i32| r@.contains(p) == has_moderator(ms@, c, p),
{
    let mut out: Vec<i32> = Vec::new();
    let mut i: usize = 0;
    while i < ms.len()
        invariant
            0 <= i <= ms@.len(),
            forall|p: i32|
                out@.contains(p) == (exists|t: int|
                    0 <= t < i && (#[trigger] ms@[t]).community_id == c && ms@[t].person_id == p),
        decreases ms@.len() - i,
    {
        if ms[i].community_id == c {
            let ghost pre = out@;
            out.push(ms[i].person_id);
            proof {
                assert forall|p: i32| out@.contains(p) == (exists|t: int|
                    0 <= t < i + 1 && (#[trigger] ms@[t]).community_id == c && ms@[t].person_id
                        == p) by {
                    if out@.contains(p) {
                        let w = choose|w: int| 0 <= w < out@.len() && out@[w] == p;
                        if w < pre.len() {
                            assert(pre[w] == p);
                            assert(pre.contains(p));
                        } else {
                            assert(ms@[i as int].person_id == p);
                        }
                    }
                    if exists|t: int|
                        0 <= t < i + 1 && (#[trigger] ms@[t]).community_id == c && ms@[t].person_id
                            == p {
                        let t = choose|t: int|
                            0 <= t < i + 1 && (#[trigger] ms@[t]).community_id == c
                                && ms@[t].person_id == p;
                        if t < i {
                            assert(pre.contains(p));
                            let w = choose|w: int| 0 <= w < pre.len() && pre[w] == p;
                            assert(out@[w] == p);
                        } else {
                            assert(out@[pre.len() as int] == p);
                        }
                    }
                }
            }
        } else {
            proof {
                assert forall|p: i32| out@.contains(p) == (exists|t: int|
                    0 <= t < i + 1 && (#[trigger] ms@[t]).community_id == c && ms@[t].person_id
                        == p) by {
                    if exists|t: int|
                        0 <= t < i + 1 && (#[trigger] ms@[t]).community_id == c && ms@[t].person_id
                            == p {
                        let t = choose|t: int|
                            0 <= t < i + 1 && (#[trigger] ms@[t]).community_id == c
                                && ms@[t].person_id == p;
                        assert(t != i);
                    }
                }
            }
        }
        i = i + 1;
    }
    out
}

} // verus!

verus! {

/// Caches a fetched remote actor: a known actor identifier is refreshed
/// in place and keeps its row id — identifiers never change once
/// created — while an unknown one gets a fresh row. Returns the row's
/// index.
pub fn upsert_person(ps: &mut Vec<Person>, next_id: &mut i32, rec: Person) -> (idx: usize)
    requires
        persons_unique(old(ps)@, *old(next_id)),
        *old(next_id) < i32::MAX,
    ensures
        persons_unique(final(ps)@, *final(next_id)),
        has_person_actor(final(ps)@, rec.actor_id.full@),
        idx < final(ps)@.len(),
        final(ps)@[idx as int].actor_id.full@ == rec.actor_id.full@,
        !has_person_actor(old(ps)@, rec.actor_id.full@) ==> final(ps)@ == old(ps)@.push(
            (Person { id: *old(next_id), ..rec }),
        ) && *final(next_id) == *old(next_id) + 1,
        has_person_actor(old(ps)@, rec.actor_id.full@) ==> *final(next_id) == *old(next_id)
            && final(ps)@.len() == old(ps)@.len() && final(ps)@[idx as int] == (Person {
            id: old(ps)@[idx as int].id,
            ..rec
        }) && (forall|t: int| 0 <= t < old(ps)@.len() && t != idx ==> final(ps)@[t] == old(ps)@[t]),
        forall|other: Seq<char>|
            other != rec.actor_id.full@ ==> has_person_actor(final(ps)@, other) == has_person_actor(
                old(ps)@,
                other,
            ),
{
    let n = ps.len();
    let mut i: usize = 0;
    while i < n
        invariant
            n == ps@.len(),
            ps@ == old(ps)@,
            persons_unique(ps@, *next_id),
            *next_id == *old(next_id),
            0 <= i <= n,
            forall|t: int| 0 <= t < i ==> (#[trigger] ps@[t]).actor_id.full@ != rec.actor_id.full@,
        decreases n - i,
    {
        if ps[i].actor_id.same_id(&rec.actor_id) {
            let prev_id = ps[i].id;
            let ghost pre = ps@;
            let row = Person { id: prev_id, ..rec };
            ps[i] = row;
            proof {
                let ii = i as int;
                assert(ps@ == pre.update(ii, row));
                assert forall|t: int| 0 <= t < pre.len() && t != ii implies ps@[t] == pre[t] by {
                    assert(pre.update(ii, row)[t] == pre[t]);
                }
                assert(ps@[ii] == row);
                assert(row.id == pre[ii].id && row.actor_id.full@ == pre[ii].actor_id.full@);
                assert forall|a: int, b: int| 0 <= a < b < ps@.len() implies (#[trigger] ps@[a]).id
                    != (#[trigger] ps@[b]).id && ps@[a].actor_id.full@ != ps@[b].actor_id.full@ by {
                    assert(ps@[a].id == pre[a].id && ps@[a].actor_id.full@ == pre[a].actor_id.full@);
                    assert(ps@[b].id == pre[b].id && ps@[b].actor_id.full@ == pre[b].actor_id.full@);
                }
                assert forall|a: int| 0 <= a < ps@.len() implies (#[trigger] ps@[a]).id < *next_id by {
                    assert(ps@[a].id == pre[a].id);
                }
                assert forall|other: Seq<char>|
                    other != rec.actor_id.full@ implies has_person_actor(ps@, other)
                    == has_person_actor(pre, other) by {
                    if has_person_actor(ps@, other) {
                        let w = choose|t: int|
                            0 <= t < ps@.len() && (#[trigger] ps@[t]).actor_id.full@ == other;
                        assert(pre[w].actor_id.full@ == other);
                    }
                    if has_person_actor(pre, other) {
                        let w = choose|t: int|
                            0 <= t < pre.len() && (#[trigger] pre[t]).actor_id.full@ == other;
                        assert(ps@[w].actor_id.full@ == other);
                    }
                }
            }
            return i;
        }
        i = i + 1;
    }
    let id = *next_id;
    let row = Person { id, ..rec };
    let ghost pre = ps@;
    ps.push(row);
    *next_id = *next_id + 1;
    proof {
        assert(ps@.drop_last() =~= pre);
        assert(ps@[pre.len() as int].actor_id.full@ == rec.actor_id.full@);
        assert forall|a: int, b: int| 0 <= a < b < ps@.len() implies (#[trigger] ps@[a]).id != (
        #[trigger] ps@[b]).id && ps@[a].actor_id.full@ != ps@[b].actor_id.full@ by {
            if b < pre.len() {
                assert(ps@[a] == pre[a] && ps@[b] == pre[b]);
            } else {
                assert(ps@[a] == pre[a]);
            }
        }
        assert forall|other: Seq<char>|
            other != rec.actor_id.full@ implies has_person_actor(ps@, other) == has_person_actor(
            pre,
            other,
        ) by {
            if has_person_actor(ps@, other) {
                let w = choose|t: int|
                    0 <= t < ps@.len() && (#[trigger] ps@[t]).actor_id.full@ == other;
                assert(w < pre.len() && pre[w].actor_id.full@ == other);
            }
            if has_person_actor(pre, other) {
                let w = choose|t: int|
                    0 <= t < pre.len() && (#[trigger] pre[t]).actor_id.full@ == other;
                assert(ps@[w].actor_id.full@ == other);
            }
        }
    }
    n
}

} // verus!
