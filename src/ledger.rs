//! The ledger: profiles, posts and follow records stored at derived addresses, and the
//! transitions that read, check and write them as one unit.
use crate::address::{
    follow_address, follow_seeds, post_address, post_seeds, profile_address, profile_seeds,
    program_address, Key,
};
use crate::arena::Arena;
use crate::error::SocialPlatformError;
use crate::follow::{follow, follow_error, unfollow, unfollow_error, FollowRecord};
use crate::post::{edit_error, image_view, new_post_error, tip_error, Post};
use crate::profile::{username_error, UserProfile};
use vstd::prelude::*;

verus! {

/// What the ledger holds, by address.
pub struct LedgerView {
    pub program: Seq<u8>,
    pub profiles: Map<Seq<u8>, UserProfile>,
    pub posts: Map<Seq<u8>, Post>,
    pub follows: Map<Seq<u8>, FollowRecord>,
}

pub open spec fn addr_of(d: Option<(Seq<u8>, u8)>) -> Seq<u8> {
    d->Some_0.0
}

pub open spec fn bump_of(d: Option<(Seq<u8>, u8)>) -> u8 {
    d->Some_0.1
}

pub open spec fn profile_addr(s: LedgerView, owner: Seq<u8>) -> Option<(Seq<u8>, u8)> {
    program_address(profile_seeds(owner), s.program)
}

pub open spec fn post_addr(s: LedgerView, author: Seq<u8>, post_id: u64) -> Option<(Seq<u8>, u8)> {
    program_address(post_seeds(author, post_id), s.program)
}

pub open spec fn follow_addr(s: LedgerView, follower: Seq<u8>, target: Seq<u8>) -> Option<
    (Seq<u8>, u8),
> {
    program_address(follow_seeds(follower, target), s.program)
}

pub open spec fn fail(s: LedgerView, e: SocialPlatformError) -> (LedgerView, Result<(), SocialPlatformError>) {
    (s, Err(e))
}

/// Profile creation: one profile per owner, never overwritten.
pub open spec fn initialize_user_step(s: LedgerView, user: Key, username: String, now: i64) -> (
    LedgerView,
    Result<(), SocialPlatformError>,
) {
    let d = profile_addr(s, user@);
    if d is None {
        fail(s, SocialPlatformError::AddressUnavailable)
    } else if s.profiles.contains_key(addr_of(d)) {
        fail(s, SocialPlatformError::DuplicateProfile)
    } else if username_error(username@) is Some {
        fail(s, username_error(username@)->Some_0)
    } else {
        (
            LedgerView {
                profiles: s.profiles.insert(
                    addr_of(d),
                    UserProfile::fresh(user, username, now, bump_of(d)),
                ),
                ..s
            },
            Ok(()),
        )
    }
}

/// Post creation: the post goes to the address numbered by the author's `post_count`.
pub open spec fn create_post_step(
    s: LedgerView,
    author: Key,
    content: String,
    image_url: Option<String>,
    tags: Vec<String>,
    now: i64,
) -> (LedgerView, Result<(), SocialPlatformError>) {
    let d = profile_addr(s, author@);
    if d is None {
        fail(s, SocialPlatformError::AddressUnavailable)
    } else if !s.profiles.contains_key(addr_of(d)) {
        fail(s, SocialPlatformError::ProfileNotFound)
    } else {
        let p = s.profiles[addr_of(d)];
        let q = post_addr(s, author@, p.post_count);
        if q is None {
            fail(s, SocialPlatformError::AddressUnavailable)
        } else if s.posts.contains_key(addr_of(q)) {
            fail(s, SocialPlatformError::DuplicatePost)
        } else if new_post_error(content@, image_view(image_url), tags@) is Some {
            fail(s, new_post_error(content@, image_view(image_url), tags@)->Some_0)
        } else if p.post_count == u64::MAX {
            fail(s, SocialPlatformError::ArithmeticOverflow)
        } else {
            (
                LedgerView {
                    profiles: s.profiles.insert(addr_of(d), p.with_post_added()),
                    posts: s.posts.insert(
                        addr_of(q),
                        Post::created(p, content, image_url, tags, now, bump_of(q)),
                    ),
                    ..s
                },
                Ok(()),
            )
        }
    }
}

/// A tip to the post numbered `post_id` of `author`, paid out to `author`.
pub open spec fn tip_post_step(
    s: LedgerView,
    author: Key,
    post_id: u64,
    tipper: Key,
    amount: u64,
    transferred: bool,
) -> (LedgerView, Result<(), SocialPlatformError>) {
    let q = post_addr(s, author@, post_id);
    if q is None {
        fail(s, SocialPlatformError::AddressUnavailable)
    } else if !s.posts.contains_key(addr_of(q)) {
        fail(s, SocialPlatformError::PostNotFound)
    } else {
        let p = s.posts[addr_of(q)];
        if tip_error(p, tipper@, author@, amount) is Some {
            fail(s, tip_error(p, tipper@, author@, amount)->Some_0)
        } else if !transferred {
            fail(s, SocialPlatformError::TransferFailed)
        } else {
            (
                LedgerView {
                    posts: s.posts.insert(
                        addr_of(q),
                        Post {
                            tips_received: (p.tips_received + amount) as u64,
                            tip_count: (p.tip_count + 1) as u64,
                            ..p
                        },
                    ),
                    ..s
                },
                Ok(()),
            )
        }
    }
}

/// Follow: a record at the pair's address and both counters up, or nothing.
pub open spec fn follow_user_step(s: LedgerView, follower: Key, target: Key, now: i64) -> (
    LedgerView,
    Result<(), SocialPlatformError>,
) {
    let r = follow_addr(s, follower@, target@);
    let f = profile_addr(s, follower@);
    let t = profile_addr(s, target@);
    if follower@ == target@ {
        fail(s, SocialPlatformError::CannotFollowSelf)
    } else if r is None || f is None || t is None {
        fail(s, SocialPlatformError::AddressUnavailable)
    } else if s.follows.contains_key(addr_of(r)) {
        fail(s, SocialPlatformError::DuplicateFollow)
    } else if !s.profiles.contains_key(addr_of(f)) || !s.profiles.contains_key(addr_of(t)) {
        fail(s, SocialPlatformError::ProfileNotFound)
    } else if addr_of(f) == addr_of(t) {
        fail(s, SocialPlatformError::CannotFollowSelf)
    } else {
        let pf = s.profiles[addr_of(f)];
        let pt = s.profiles[addr_of(t)];
        if follow_error(pf, pt, follower@, target@) is Some {
            fail(s, follow_error(pf, pt, follower@, target@)->Some_0)
        } else {
            (
                LedgerView {
                    profiles: s.profiles.insert(
                        addr_of(f),
                        pf.with_following(pf.following_count + 1),
                    ).insert(addr_of(t), pt.with_followers(pt.followers_count + 1)),
                    follows: s.follows.insert(
                        addr_of(r),
                        FollowRecord {
                            follower,
                            following: target,
                            timestamp: now,
                            bump: bump_of(r),
                        },
                    ),
                    ..s
                },
                Ok(()),
            )
        }
    }
}

/// Unfollow by the follower: the record goes and both counters come down, or nothing.
pub open spec fn unfollow_user_step(s: LedgerView, follower: Key, target: Key) -> (
    LedgerView,
    Result<(), SocialPlatformError>,
) {
    let r = follow_addr(s, follower@, target@);
    let f = profile_addr(s, follower@);
    let t = profile_addr(s, target@);
    if r is None || f is None || t is None {
        fail(s, SocialPlatformError::AddressUnavailable)
    } else if !s.follows.contains_key(addr_of(r)) {
        fail(s, SocialPlatformError::FollowNotFound)
    } else if !s.profiles.contains_key(addr_of(f)) || !s.profiles.contains_key(addr_of(t)) {
        fail(s, SocialPlatformError::ProfileNotFound)
    } else if addr_of(f) == addr_of(t) {
        fail(s, SocialPlatformError::CannotFollowSelf)
    } else {
        let pf = s.profiles[addr_of(f)];
        let pt = s.profiles[addr_of(t)];
        let rec = s.follows[addr_of(r)];
        if unfollow_error(rec, pf, pt, follower@) is Some {
            fail(s, unfollow_error(rec, pf, pt, follower@)->Some_0)
        } else {
            (
                LedgerView {
                    profiles: s.profiles.insert(
                        addr_of(f),
                        pf.with_following(pf.following_count - 1),
                    ).insert(addr_of(t), pt.with_followers(pt.followers_count - 1)),
                    follows: s.follows.remove(addr_of(r)),
                    ..s
                },
                Ok(()),
            )
        }
    }
}

/// Edit of the post numbered `post_id` of `author`, by `author`.
pub open spec fn edit_post_step(
    s: LedgerView,
    author: Key,
    post_id: u64,
    new_content: String,
    new_image_url: Option<String>,
) -> (LedgerView, Result<(), SocialPlatformError>) {
    let q = post_addr(s, author@, post_id);
    if q is None {
        fail(s, SocialPlatformError::AddressUnavailable)
    } else if !s.posts.contains_key(addr_of(q)) {
        fail(s, SocialPlatformError::PostNotFound)
    } else {
        let p = s.posts[addr_of(q)];
        if author@ != p.author@ {
            fail(s, SocialPlatformError::UnauthorizedPostModification)
        } else if edit_error(new_content@, image_view(new_image_url)) is Some {
            fail(s, edit_error(new_content@, image_view(new_image_url))->Some_0)
        } else if !p.is_active {
            fail(s, SocialPlatformError::PostNotActive)
        } else {
            (
                LedgerView {
                    posts: s.posts.insert(
                        addr_of(q),
                        Post { content: new_content, image_url: new_image_url, ..p },
                    ),
                    ..s
                },
                Ok(()),
            )
        }
    }
}

/// Deactivation of the post numbered `post_id` of `author`, by `author`.
pub open spec fn deactivate_post_step(s: LedgerView, author: Key, post_id: u64) -> (
    LedgerView,
    Result<(), SocialPlatformError>,
) {
    let q = post_addr(s, author@, post_id);
    if q is None {
        fail(s, SocialPlatformError::AddressUnavailable)
    } else if !s.posts.contains_key(addr_of(q)) {
        fail(s, SocialPlatformError::PostNotFound)
    } else {
        let p = s.posts[addr_of(q)];
        if author@ != p.author@ {
            fail(s, SocialPlatformError::UnauthorizedPostModification)
        } else if !p.is_active {
            fail(s, SocialPlatformError::PostNotActive)
        } else {
            (
                LedgerView { posts: s.posts.insert(addr_of(q), Post { is_active: false, ..p }), ..s },
                Ok(()),
            )
        }
    }
}

/// Username change of `user`'s own profile; `None` changes nothing.
pub open spec fn update_profile_step(s: LedgerView, user: Key, new_username: Option<String>) -> (
    LedgerView,
    Result<(), SocialPlatformError>,
) {
    let d = profile_addr(s, user@);
    if d is None {
        fail(s, SocialPlatformError::AddressUnavailable)
    } else if !s.profiles.contains_key(addr_of(d)) {
        fail(s, SocialPlatformError::ProfileNotFound)
    } else {
        match new_username {
            None => (s, Ok(())),
            Some(name) => if username_error(name@) is Some {
                fail(s, username_error(name@)->Some_0)
            } else {
                let p = s.profiles[addr_of(d)];
                (
                    LedgerView {
                        profiles: s.profiles.insert(addr_of(d), UserProfile { username: name, ..p }),
                        ..s
                    },
                    Ok(()),
                )
            },
        }
    }
}

/// The ledger of one program: every entity lives at an address derived from its seeds.
pub struct Ledger {
    pub program: Key,
    pub profiles: Arena<UserProfile>,
    pub posts: Arena<Post>,
    pub follows: Arena<FollowRecord>,
}

impl View for Ledger {
    type V = LedgerView;

    open spec fn view(&self) -> LedgerView {
        LedgerView {
            program: self.program@,
            profiles: self.profiles.view(),
            posts: self.posts.view(),
            follows: self.follows.view(),
        }
    }
}

impl Ledger {
    pub open spec fn wf(&self) -> bool {
        self.profiles.wf() && self.posts.wf() && self.follows.wf()
    }

    /// An empty ledger for `program`.
    pub fn new(program: Key) -> (r: Ledger)
        ensures
            r.wf(),
            r@.program == program@,
            r@.profiles == Map::<Seq<u8>, UserProfile>::empty(),
            r@.posts == Map::<Seq<u8>, Post>::empty(),
            r@.follows == Map::<Seq<u8>, FollowRecord>::empty(),
    {
        Ledger { program, profiles: Arena::new(), posts: Arena::new(), follows: Arena::new() }
    }

    /// Creates the profile of `user`, at the address derived from `user`.
    pub fn initialize_user(&mut self, user: &Key, username: String, now: i64) -> (r: Result<
        (),
        SocialPlatformError,
    >)
        requires
            old(self).wf(),
        ensures
            final(self).wf(),
            (final(self)@, r) == initialize_user_step(old(self)@, *user, username, now),
    {
        let (addr, bump) = match profile_address(&self.program, user) {
            None => return Err(SocialPlatformError::AddressUnavailable),
            Some(d) => d,
        };
        if self.profiles.find(&addr).is_some() {
            return Err(SocialPlatformError::DuplicateProfile);
        }
        let profile = UserProfile::new(*user, username, now, bump)?;
        self.profiles.insert(addr, profile);
        Ok(())
    }

    /// Creates the next post of `author`, numbered by the author's `post_count`.
    pub fn create_post(
        &mut self,
        author: &Key,
        content: String,
        image_url: Option<String>,
        tags: Vec<String>,
        now: i64,
    ) -> (r: Result<(), SocialPlatformError>)
        requires
            old(self).wf(),
        ensures
            final(self).wf(),
            (final(self)@, r) == create_post_step(old(self)@, *author, content, image_url, tags, now),
    {
        let ghost s = self@;
        let (pa, _) = match profile_address(&self.program, author) {
            None => return Err(SocialPlatformError::AddressUnavailable),
            Some(d) => d,
        };
        let pi = match self.profiles.find(&pa) {
            None => return Err(SocialPlatformError::ProfileNotFound),
            Some(i) => i,
        };
        let count = self.profiles.get(pi).post_count;
        let (qa, qbump) = match post_address(&self.program, author, count) {
            None => return Err(SocialPlatformError::AddressUnavailable),
            Some(d) => d,
        };
        if self.posts.find(&qa).is_some() {
            return Err(SocialPlatformError::DuplicatePost);
        }
        let mut profile = self.profiles.remove(pi);
        let res = Post::create(&mut profile, content, image_url, tags, now, qbump);
        self.profiles.insert(pa, profile);
        proof {
            assert(self.profiles.view() =~= s.profiles.insert(pa@, profile));
            assert(s.profiles.insert(pa@, s.profiles[pa@]) =~= s.profiles);
        }
        match res {
            Err(e) => Err(e),
            Ok(post) => {
                self.posts.insert(qa, post);
                Ok(())
            },
        }
    }

    /// Tips the post numbered `post_id` of `author`, paid out to `author`. `transferred` is
    /// the outcome of moving `amount` from `tipper` to `author`.
    pub fn tip_post(
        &mut self,
        author: &Key,
        post_id: u64,
        tipper: &Key,
        amount: u64,
        transferred: bool,
    ) -> (r: Result<(), SocialPlatformError>)
        requires
            old(self).wf(),
        ensures
            final(self).wf(),
            (final(self)@, r) == tip_post_step(old(self)@, *author, post_id, *tipper, amount, transferred),
    {
        let ghost s = self@;
        let (qa, _) = match post_address(&self.program, author, post_id) {
            None => return Err(SocialPlatformError::AddressUnavailable),
            Some(d) => d,
        };
        let qi = match self.posts.find(&qa) {
            None => return Err(SocialPlatformError::PostNotFound),
            Some(i) => i,
        };
        let mut post = self.posts.remove(qi);
        let res = post.tip(tipper, author, amount, transferred);
        self.posts.insert(qa, post);
        proof {
            assert(self.posts.view() =~= s.posts.insert(qa@, post));
            assert(s.posts.insert(qa@, s.posts[qa@]) =~= s.posts);
        }
        res
    }

    /// `follower` follows `target`: the record is created at the pair's address and both
    /// counters go up together, or nothing changes. A second follow of the same pair finds
    /// the record already there and fails.
    pub fn follow_user(&mut self, follower: &Key, target: &Key, now: i64) -> (r: Result<
        (),
        SocialPlatformError,
    >)
        requires
            old(self).wf(),
        ensures
            final(self).wf(),
            (final(self)@, r) == follow_user_step(old(self)@, *follower, *target, now),
    {
        let ghost s = self@;
        if follower.same(target) {
            return Err(SocialPlatformError::CannotFollowSelf);
        }
        let rd = follow_address(&self.program, follower, target);
        let fd = profile_address(&self.program, follower);
        let td = profile_address(&self.program, target);
        let (ra, rbump, fa, ta) = match (rd, fd, td) {
            (Some((ra, rbump)), Some((fa, _)), Some((ta, _))) => (ra, rbump, fa, ta),
            _ => return Err(SocialPlatformError::AddressUnavailable),
        };
        if self.follows.find(&ra).is_some() {
            return Err(SocialPlatformError::DuplicateFollow);
        }
        let fi = match self.profiles.find(&fa) {
            None => return Err(SocialPlatformError::ProfileNotFound),
            Some(i) => i,
        };
        if self.profiles.find(&ta).is_none() {
            return Err(SocialPlatformError::ProfileNotFound);
        }
        if fa.same(&ta) {
            return Err(SocialPlatformError::CannotFollowSelf);
        }
        let mut pf = self.profiles.remove(fi);
        let ti = match self.profiles.find(&ta) {
            Some(i) => i,
            None => {
                proof {
                    assert(s.profiles.remove(fa@).contains_key(ta@));
                }
                return Err(SocialPlatformError::ProfileNotFound);
            },
        };
        let mut pt = self.profiles.remove(ti);
        let res = follow(&mut pf, &mut pt, follower, target, now, rbump);
        self.profiles.insert(fa, pf);
        self.profiles.insert(ta, pt);
        proof {
            assert(self.profiles.view() =~= s.profiles.insert(fa@, pf).insert(ta@, pt));
            assert(s.profiles.insert(fa@, s.profiles[fa@]).insert(ta@, s.profiles[ta@])
                =~= s.profiles);
        }
        match res {
            Err(e) => Err(e),
            Ok(record) => {
                self.follows.insert(ra, record);
                Ok(())
            },
        }
    }

    /// `follower` stops following `target`: the record goes and both counters come down
    /// together, or nothing changes.
    pub fn unfollow_user(&mut self, follower: &Key, target: &Key) -> (r: Result<
        (),
        SocialPlatformError,
    >)
        requires
            old(self).wf(),
        ensures
            final(self).wf(),
            (final(self)@, r) == unfollow_user_step(old(self)@, *follower, *target),
    {
        let ghost s = self@;
        let rd = follow_address(&self.program, follower, target);
        let fd = profile_address(&self.program, follower);
        let td = profile_address(&self.program, target);
        let (ra, fa, ta) = match (rd, fd, td) {
            (Some((ra, _)), Some((fa, _)), Some((ta, _))) => (ra, fa, ta),
            _ => return Err(SocialPlatformError::AddressUnavailable),
        };
        let ri = match self.follows.find(&ra) {
            None => return Err(SocialPlatformError::FollowNotFound),
            Some(i) => i,
        };
        let fi = match self.profiles.find(&fa) {
            None => return Err(SocialPlatformError::ProfileNotFound),
            Some(i) => i,
        };
        if self.profiles.find(&ta).is_none() {
            return Err(SocialPlatformError::ProfileNotFound);
        }
        if fa.same(&ta) {
            return Err(SocialPlatformError::CannotFollowSelf);
        }
        let record = *self.follows.get(ri);
        let mut pf = self.profiles.remove(fi);
        let ti = match self.profiles.find(&ta) {
            Some(i) => i,
            None => {
                proof {
                    assert(s.profiles.remove(fa@).contains_key(ta@));
                }
                return Err(SocialPlatformError::ProfileNotFound);
            },
        };
        let mut pt = self.profiles.remove(ti);
        let res = unfollow(&record, &mut pf, &mut pt, follower);
        self.profiles.insert(fa, pf);
        self.profiles.insert(ta, pt);
        proof {
            assert(self.profiles.view() =~= s.profiles.insert(fa@, pf).insert(ta@, pt));
            assert(s.profiles.insert(fa@, s.profiles[fa@]).insert(ta@, s.profiles[ta@])
                =~= s.profiles);
        }
        match res {
            Err(e) => Err(e),
            Ok(()) => {
                self.follows.remove(ri);
                Ok(())
            },
        }
    }

    /// Edits the post numbered `post_id` of `author`; only its author may.
    pub fn edit_post(
        &mut self,
        author: &Key,
        post_id: u64,
        new_content: String,
        new_image_url: Option<String>,
    ) -> (r: Result<(), SocialPlatformError>)
        requires
            old(self).wf(),
        ensures
            final(self).wf(),
            (final(self)@, r) == edit_post_step(old(self)@, *author, post_id, new_content, new_image_url),
    {
        let ghost s = self@;
        let (qa, _) = match post_address(&self.program, author, post_id) {
            None => return Err(SocialPlatformError::AddressUnavailable),
            Some(d) => d,
        };
        let qi = match self.posts.find(&qa) {
            None => return Err(SocialPlatformError::PostNotFound),
            Some(i) => i,
        };
        let mut post = self.posts.remove(qi);
        let res = post.edit(author, new_content, new_image_url);
        self.posts.insert(qa, post);
        proof {
            assert(self.posts.view() =~= s.posts.insert(qa@, post));
            assert(s.posts.insert(qa@, s.posts[qa@]) =~= s.posts);
        }
        res
    }

    /// Deactivates the post numbered `post_id` of `author`; only its author may.
    pub fn deactivate_post(&mut self, author: &Key, post_id: u64) -> (r: Result<
        (),
        SocialPlatformError,
    >)
        requires
            old(self).wf(),
        ensures
            final(self).wf(),
            (final(self)@, r) == deactivate_post_step(old(self)@, *author, post_id),
    {
        let ghost s = self@;
        let (qa, _) = match post_address(&self.program, author, post_id) {
            None => return Err(SocialPlatformError::AddressUnavailable),
            Some(d) => d,
        };
        let qi = match self.posts.find(&qa) {
            None => return Err(SocialPlatformError::PostNotFound),
            Some(i) => i,
        };
        let mut post = self.posts.remove(qi);
        let res = post.deactivate(author);
        self.posts.insert(qa, post);
        proof {
            assert(self.posts.view() =~= s.posts.insert(qa@, post));
            assert(s.posts.insert(qa@, s.posts[qa@]) =~= s.posts);
        }
        res
    }

    /// Changes the username of `user`'s profile when one is given.
    pub fn update_profile(&mut self, user: &Key, new_username: Option<String>) -> (r: Result<
        (),
        SocialPlatformError,
    >)
        requires
            old(self).wf(),
        ensures
            final(self).wf(),
            (final(self)@, r) == update_profile_step(old(self)@, *user, new_username),
    {
        let ghost s = self@;
        let (pa, _) = match profile_address(&self.program, user) {
            None => return Err(SocialPlatformError::AddressUnavailable),
            Some(d) => d,
        };
        let pi = match self.profiles.find(&pa) {
            None => return Err(SocialPlatformError::ProfileNotFound),
            Some(i) => i,
        };
        let mut profile = self.profiles.remove(pi);
        let res = profile.update_username(new_username);
        self.profiles.insert(pa, profile);
        proof {
            assert(self.profiles.view() =~= s.profiles.insert(pa@, profile));
            assert(s.profiles.insert(pa@, s.profiles[pa@]) =~= s.profiles);
        }
        res
    }
    /// The profile stored at `owner`'s address, if any.
    pub fn profile(&self, owner: &Key) -> (r: Option<&UserProfile>)
        requires
            self.wf(),
        ensures
            ({
                let d = profile_addr(self@, owner@);
                match r {
                    Some(p) => d is Some && self@.profiles.contains_key(addr_of(d))
                        && *p == self@.profiles[addr_of(d)],
                    None => d is None || !self@.profiles.contains_key(addr_of(d)),
                }
            }),
    {
        let (pa, _) = profile_address(&self.program, owner)?;
        let i = self.profiles.find(&pa)?;
        Some(self.profiles.get(i))
    }

    /// The post numbered `post_id` of `author`, if any.
    pub fn post(&self, author: &Key, post_id: u64) -> (r: Option<&Post>)
        requires
            self.wf(),
        ensures
            ({
                let d = post_addr(self@, author@, post_id);
                match r {
                    Some(p) => d is Some && self@.posts.contains_key(addr_of(d)) && *p
                        == self@.posts[addr_of(d)],
                    None => d is None || !self@.posts.contains_key(addr_of(d)),
                }
            }),
    {
        let (qa, _) = post_address(&self.program, author, post_id)?;
        let i = self.posts.find(&qa)?;
        Some(self.posts.get(i))
    }

    /// The record of `follower` following `target`, if any.
    pub fn follow_record(&self, follower: &Key, target: &Key) -> (r: Option<&FollowRecord>)
        requires
            self.wf(),
        ensures
            ({
                let d = follow_addr(self@, follower@, target@);
                match r {
                    Some(f) => d is Some && self@.follows.contains_key(addr_of(d)) && *f
                        == self@.follows[addr_of(d)],
                    None => d is None || !self@.follows.contains_key(addr_of(d)),
                }
            }),
    {
        let (ra, _) = follow_address(&self.program, follower, target)?;
        let i = self.follows.find(&ra)?;
        Some(self.follows.get(i))
    }
}

} // verus!
