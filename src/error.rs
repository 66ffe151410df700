use vstd::prelude::*;

verus! {

/// Every way a transition can be rejected. A rejected transition changes nothing.
#[derive(Clone, Copy, Debug, PartialEq, Eq, Structural)]
pub enum SocialPlatformError {
    ContentTooLong,
    ContentEmpty,
    UsernameTooLong,
    UsernameEmpty,
    ImageUrlTooLong,
    TooManyTags,
    TagTooLong,
    InvalidTipAmount,
    TipTooSmall,
    CannotTipOwnPost,
    CannotFollowSelf,
    UnauthorizedPostModification,
    PostNotActive,
    ArithmeticOverflow,
    ArithmeticUnderflow,
    /// A profile already exists at the owner's address.
    DuplicateProfile,
    /// A post already exists at the address of the author's next post.
    DuplicatePost,
    /// A follow record already exists for the (follower, target) pair.
    DuplicateFollow,
    /// The payout key of a tip is not the post's author.
    TipRecipientMismatch,
    /// The caller is not the follower named by the follow record.
    UnauthorizedUnfollow,
    /// No profile is stored at the derived address.
    ProfileNotFound,
    /// No post is stored at the derived address.
    PostNotFound,
    /// No follow record is stored at the derived address.
    FollowNotFound,
    /// The value transfer of a tip failed.
    TransferFailed,
    /// No address could be derived from the seeds.
    AddressUnavailable,
}

} // verus!
