//! Follow edges and the symmetric counter updates that come with them.
use crate::address::Key;
use crate::error::SocialPlatformError;
use crate::profile::UserProfile;
use vstd::prelude::*;

verus! {

#[derive(Clone, Copy, Debug)]
pub struct FollowRecord {
    pub follower: Key,
    pub following: Key,
    pub timestamp: i64,
    pub bump: u8,
}

/// Why a follow of `target` by `follower` is refused, given both profiles.
pub open spec fn follow_error(
    follower_profile: UserProfile,
    target_profile: UserProfile,
    follower: Seq<u8>,
    target: Seq<u8>,
) -> Option<SocialPlatformError> {
    if follower == target {
        Some(SocialPlatformError::CannotFollowSelf)
    } else if follower_profile.following_count == u64::MAX
        || target_profile.followers_count == u64::MAX {
        Some(SocialPlatformError::ArithmeticOverflow)
    } else {
        None
    }
}

/// Why an unfollow by `caller` is refused, given the record and both profiles.
pub open spec fn unfollow_error(
    record: FollowRecord,
    follower_profile: UserProfile,
    target_profile: UserProfile,
    caller: Seq<u8>,
) -> Option<SocialPlatformError> {
    if caller != record.follower@ {
        Some(SocialPlatformError::UnauthorizedUnfollow)
    } else if follower_profile.following_count == 0 || target_profile.followers_count == 0 {
        Some(SocialPlatformError::ArithmeticUnderflow)
    } else {
        None
    }
}

/// Creates the edge `follower -> target` and moves both counters up by one, or changes
/// nothing at all.
pub fn follow(
    follower_profile: &mut UserProfile,
    target_profile: &mut UserProfile,
    follower: &Key,
    target: &Key,
    timestamp: i64,
    bump: u8,
) -> (r: Result<FollowRecord, SocialPlatformError>)
    ensures
        follow_error(*old(follower_profile), *old(target_profile), follower@, target@) matches Some(
            e,
        ) ==> r == Err::<FollowRecord, SocialPlatformError>(e) && *final(follower_profile) == *old(
            follower_profile,
        ) && *final(target_profile) == *old(target_profile),
        follow_error(*old(follower_profile), *old(target_profile), follower@, target@) is None
            ==> r == Ok::<FollowRecord, SocialPlatformError>(
            FollowRecord { follower: *follower, following: *target, timestamp, bump },
        ) && *final(follower_profile) == old(follower_profile).with_following(
            old(follower_profile).following_count + 1,
        ) && *final(target_profile) == old(target_profile).with_followers(
            old(target_profile).followers_count + 1,
        ),
{
    if follower.same(target) {
        return Err(SocialPlatformError::CannotFollowSelf);
    }
    if follower_profile.following_count == u64::MAX || target_profile.followers_count
        == u64::MAX {
        return Err(SocialPlatformError::ArithmeticOverflow);
    }
    let _ = follower_profile.adjust_following(true);
    let _ = target_profile.adjust_followers(true);
    Ok(FollowRecord { follower: *follower, following: *target, timestamp, bump })
}

/// Removes the edge described by `record`: both counters go down by one, or nothing
/// changes at all. Only the follower may unfollow.
pub fn unfollow(
    record: &FollowRecord,
    follower_profile: &mut UserProfile,
    target_profile: &mut UserProfile,
    caller: &Key,
) -> (r: Result<(), SocialPlatformError>)
    ensures
        r == crate::profile::outcome(
            unfollow_error(*record, *old(follower_profile), *old(target_profile), caller@),
        ),
        r is Err ==> *final(follower_profile) == *old(follower_profile) && *final(target_profile)
            == *old(target_profile),
        r is Ok ==> *final(follower_profile) == old(follower_profile).with_following(
            old(follower_profile).following_count - 1,
        ) && *final(target_profile) == old(target_profile).with_followers(
            old(target_profile).followers_count - 1,
        ),
{
    if !caller.same(&record.follower) {
        return Err(SocialPlatformError::UnauthorizedUnfollow);
    }
    if follower_profile.following_count == 0 || target_profile.followers_count == 0 {
        return Err(SocialPlatformError::ArithmeticUnderflow);
    }
    let _ = follower_profile.adjust_following(false);
    let _ = target_profile.adjust_followers(false);
    Ok(())
}

} // verus!
