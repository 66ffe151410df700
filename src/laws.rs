//! Properties of the transitions that hold for every ledger state.
use crate::address::Key;
use crate::error::SocialPlatformError;
use crate::ledger::{
    addr_of, create_post_step, deactivate_post_step, edit_post_step, follow_addr,
    follow_user_step, initialize_user_step, post_addr, profile_addr, tip_post_step,
    unfollow_user_step, LedgerView,
};
use crate::post::{edit_error, image_view, Post, MIN_TIP};
use crate::profile::{username_error, UserProfile};
use vstd::prelude::*;

verus! {

/// A profile's state after `n` posts were created from state `p`.
pub open spec fn after_posts(p: UserProfile, n: nat) -> UserProfile
    decreases n,
{
    if n == 0 {
        p
    } else {
        after_posts(p, (n - 1) as nat).with_post_added()
    }
}

/// Each post created from profile state `q` gets the id `q.post_count`. So the posts created
/// one after another from `p` are numbered `p.post_count`, `p.post_count + 1`, ...: their ids
/// strictly increase and never repeat, and after `n` creates the counter has grown by `n`
/// (from a fresh profile, it equals `n`).
pub proof fn lemma_post_ids_increase(p: UserProfile, i: nat, j: nat)
    requires
        i < j,
        p.post_count + j <= u64::MAX,
    ensures
        after_posts(p, i).post_count < after_posts(p, j).post_count,
        after_posts(p, j).post_count == p.post_count + j,
        after_posts(p, i).post_count == p.post_count + i,
    decreases j,
{
    if i + 1 < j {
        lemma_post_ids_increase(p, i, (j - 1) as nat);
    } else {
        lemma_post_count_after(p, i);
    }
}

proof fn lemma_post_count_after(p: UserProfile, n: nat)
    requires
        p.post_count + n <= u64::MAX,
    ensures
        after_posts(p, n).post_count == p.post_count + n,
    decreases n,
{
    if n > 0 {
        lemma_post_count_after(p, (n - 1) as nat);
    }
}

/// Creating a post at the ledger stores it at the address numbered by the author's counter,
/// with that number as its id, and moves the counter up by one.
pub proof fn lemma_create_post_numbers(
    s: LedgerView,
    author: Key,
    content: String,
    image_url: Option<String>,
    tags: Vec<String>,
    now: i64,
)
    requires
        create_post_step(s, author, content, image_url, tags, now).1 is Ok,
    ensures
        ({
            let s1 = create_post_step(s, author, content, image_url, tags, now).0;
            let a = addr_of(profile_addr(s, author@));
            let n = s.profiles[a].post_count;
            let q = addr_of(post_addr(s, author@, n));
            &&& s1.profiles[a].post_count == n + 1
            &&& !s.posts.contains_key(q)
            &&& s1.posts.contains_key(q)
            &&& s1.posts[q].post_id == n
            &&& s1.posts[q].is_active
        }),
{
}

/// For a valid username, initializing an owner's profile succeeds once; a second
/// initialization for the same owner fails with `DuplicateProfile` and changes nothing.
pub proof fn lemma_initialize_only_once(
    s: LedgerView,
    user: Key,
    username: String,
    now: i64,
    username2: String,
    now2: i64,
)
    requires
        profile_addr(s, user@) is Some,
        !s.profiles.contains_key(addr_of(profile_addr(s, user@))),
        username_error(username@) is None,
    ensures
        ({
            let (s1, r1) = initialize_user_step(s, user, username, now);
            let (s2, r2) = initialize_user_step(s1, user, username2, now2);
            &&& r1 is Ok
            &&& r2 == Err::<(), SocialPlatformError>(SocialPlatformError::DuplicateProfile)
            &&& s2 == s1
        }),
{
}

/// Following and then unfollowing restores the ledger exactly, the follower's
/// `following_count` and the target's `followers_count` included; a second unfollow
/// without a follow in between fails and changes nothing.
pub proof fn lemma_follow_unfollow_restores(s: LedgerView, a: Key, b: Key, now: i64)
    requires
        follow_user_step(s, a, b, now).1 is Ok,
    ensures
        ({
            let s1 = follow_user_step(s, a, b, now).0;
            let (s2, r2) = unfollow_user_step(s1, a, b);
            let (s3, r3) = unfollow_user_step(s2, a, b);
            &&& r2 is Ok
            &&& s2 == s
            &&& r3 == Err::<(), SocialPlatformError>(SocialPlatformError::FollowNotFound)
            &&& s3 == s2
        }),
{
    let f = addr_of(profile_addr(s, a@));
    let t = addr_of(profile_addr(s, b@));
    let r = addr_of(follow_addr(s, a@, b@));
    let s1 = follow_user_step(s, a, b, now).0;
    let s2 = unfollow_user_step(s1, a, b).0;
    let pf = s.profiles[f];
    let pt = s.profiles[t];
    assert(s1.profiles[f] == pf.with_following(pf.following_count + 1));
    assert(s1.profiles[t] == pt.with_followers(pt.followers_count + 1));
    assert(s1.profiles[f].with_following(pf.following_count as int) == pf);
    assert(s1.profiles[t].with_followers(pt.followers_count as int) == pt);
    assert(s2.profiles =~= s.profiles);
    assert(s2.follows =~= s.follows);
}

/// Two follows of the same pair leave exactly one record and one increment of each
/// counter: the second finds the record and fails with `DuplicateFollow`, changing nothing.
pub proof fn lemma_follow_twice(s: LedgerView, a: Key, b: Key, now: i64, now2: i64)
    requires
        follow_user_step(s, a, b, now).1 is Ok,
    ensures
        ({
            let s1 = follow_user_step(s, a, b, now).0;
            let (s2, r2) = follow_user_step(s1, a, b, now2);
            let f = addr_of(profile_addr(s, a@));
            let t = addr_of(profile_addr(s, b@));
            let r = addr_of(follow_addr(s, a@, b@));
            &&& r2 == Err::<(), SocialPlatformError>(SocialPlatformError::DuplicateFollow)
            &&& s2 == s1
            &&& s1.follows.dom() == s.follows.dom().insert(r)
            &&& s1.profiles[f].following_count == s.profiles[f].following_count + 1
            &&& s1.profiles[t].followers_count == s.profiles[t].followers_count + 1
        }),
{
}

/// An inactive post stays inactive: its author can neither deactivate it again nor edit it
/// (with content that is otherwise valid); both fail with `PostNotActive` and change nothing.
pub proof fn lemma_inactive_post_is_final(
    s: LedgerView,
    author: Key,
    post_id: u64,
    new_content: String,
    new_image_url: Option<String>,
)
    requires
        post_addr(s, author@, post_id) is Some,
        s.posts.contains_key(addr_of(post_addr(s, author@, post_id))),
        s.posts[addr_of(post_addr(s, author@, post_id))].author@ == author@,
        !s.posts[addr_of(post_addr(s, author@, post_id))].is_active,
        edit_error(new_content@, image_view(new_image_url)) is None,
    ensures
        deactivate_post_step(s, author, post_id) == (s, Err::<(), SocialPlatformError>(
            SocialPlatformError::PostNotActive,
        )),
        edit_post_step(s, author, post_id, new_content, new_image_url) == (s, Err::<
            (),
            SocialPlatformError,
        >(SocialPlatformError::PostNotActive)),
{
}

/// Deactivating a post twice: the first succeeds, the second fails with `PostNotActive`.
pub proof fn lemma_deactivate_twice(s: LedgerView, author: Key, post_id: u64)
    requires
        deactivate_post_step(s, author, post_id).1 is Ok,
    ensures
        ({
            let s1 = deactivate_post_step(s, author, post_id).0;
            deactivate_post_step(s1, author, post_id) == (s1, Err::<(), SocialPlatformError>(
                SocialPlatformError::PostNotActive,
            ))
        }),
{
}

/// A tip below the minimum is refused with `TipTooSmall` and changes nothing; a tip of
/// exactly the minimum to an active post of another author, with room in the counters and a
/// successful transfer, adds to `tips_received` and `tip_count`.
pub proof fn lemma_tip_minimum(
    s: LedgerView,
    author: Key,
    post_id: u64,
    tipper: Key,
    small: u64,
    transferred: bool,
)
    requires
        post_addr(s, author@, post_id) is Some,
        s.posts.contains_key(addr_of(post_addr(s, author@, post_id))),
        0 < small < MIN_TIP,
    ensures
        tip_post_step(s, author, post_id, tipper, small, transferred) == (s, Err::<
            (),
            SocialPlatformError,
        >(SocialPlatformError::TipTooSmall)),
        ({
            let q = addr_of(post_addr(s, author@, post_id));
            let p = s.posts[q];
            let (s1, r) = tip_post_step(s, author, post_id, tipper, MIN_TIP, true);
            (p.is_active && p.author@ == author@ && tipper@ != author@ && p.tips_received
                + MIN_TIP <= u64::MAX && p.tip_count < u64::MAX) ==> (r is Ok
                && s1.posts[q].tips_received == p.tips_received + MIN_TIP
                && s1.posts[q].tip_count == p.tip_count + 1)
        }),
{
}

} // verus!
