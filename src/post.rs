//! Posts: creation with bounded content, tips, edits and one-way deactivation.
use crate::address::Key;
use crate::error::SocialPlatformError;
use crate::profile::{byte_len, outcome, str_len, UserProfile};
use vstd::prelude::*;

verus! {

pub const MAX_CONTENT_LEN: usize = 280;

pub const MAX_IMAGE_URL_LEN: usize = 200;

pub const MAX_TAGS: usize = 5;

pub const MAX_TAG_LEN: usize = 32;

/// Smallest accepted tip, in value units.
pub const MIN_TIP: u64 = 1000;

#[derive(Debug)]
pub struct Post {
    pub author: Key,
    pub content: String,
    pub image_url: Option<String>,
    pub tags: Vec<String>,
    pub timestamp: i64,
    pub tips_received: u64,
    pub tip_count: u64,
    pub post_id: u64,
    pub is_active: bool,
    pub bump: u8,
}

pub open spec fn image_view(u: Option<String>) -> Option<Seq<char>> {
    match u {
        Some(s) => Some(s@),
        None => None,
    }
}

pub open spec fn content_error(content: Seq<char>) -> Option<SocialPlatformError> {
    if byte_len(content) > MAX_CONTENT_LEN {
        Some(SocialPlatformError::ContentTooLong)
    } else if byte_len(content) == 0 {
        Some(SocialPlatformError::ContentEmpty)
    } else {
        None
    }
}

pub open spec fn image_url_error(url: Option<Seq<char>>) -> Option<SocialPlatformError> {
    match url {
        Some(u) => if byte_len(u) > MAX_IMAGE_URL_LEN {
            Some(SocialPlatformError::ImageUrlTooLong)
        } else {
            None
        },
        None => None,
    }
}

pub open spec fn tag_too_long(tags: Seq<String>) -> bool {
    exists|i: int| 0 <= i < tags.len() && byte_len(#[trigger] tags[i]@) > MAX_TAG_LEN
}

/// The first rule that the inputs of a new post break, checked in this order: content
/// length, number of tags, image URL length, length of each tag.
pub open spec fn new_post_error(content: Seq<char>, image_url: Option<Seq<char>>, tags: Seq<String>) -> Option<
    SocialPlatformError,
> {
    if content_error(content) is Some {
        content_error(content)
    } else if tags.len() > MAX_TAGS {
        Some(SocialPlatformError::TooManyTags)
    } else if image_url_error(image_url) is Some {
        image_url_error(image_url)
    } else if tag_too_long(tags) {
        Some(SocialPlatformError::TagTooLong)
    } else {
        None
    }
}

/// The first rule that an edit's inputs break: content length, then image URL length.
pub open spec fn edit_error(content: Seq<char>, image_url: Option<Seq<char>>) -> Option<
    SocialPlatformError,
> {
    if content_error(content) is Some {
        content_error(content)
    } else {
        image_url_error(image_url)
    }
}

pub fn validate_content(content: &String) -> (r: Result<(), SocialPlatformError>)
    ensures
        r == outcome(content_error(content@)),
{
    let n = str_len(content);
    if n > MAX_CONTENT_LEN {
        Err(SocialPlatformError::ContentTooLong)
    } else if n == 0 {
        Err(SocialPlatformError::ContentEmpty)
    } else {
        Ok(())
    }
}

pub fn validate_image_url(url: &Option<String>) -> (r: Result<(), SocialPlatformError>)
    ensures
        r == outcome(image_url_error(image_view(*url))),
{
    match url {
        Some(u) => if str_len(u) > MAX_IMAGE_URL_LEN {
            Err(SocialPlatformError::ImageUrlTooLong)
        } else {
            Ok(())
        },
        None => Ok(()),
    }
}

fn has_long_tag(tags: &Vec<String>) -> (r: bool)
    ensures
        r == tag_too_long(tags@),
{
    let mut i: usize = 0;
    while i < tags.len()
        invariant
            0 <= i <= tags@.len(),
            forall|j: int| 0 <= j < i ==> byte_len(#[trigger] tags@[j]@) <= MAX_TAG_LEN,
        decreases tags@.len() - i,
    {
        if str_len(&tags[i]) > MAX_TAG_LEN {
            assert(byte_len(tags@[i as int]@) > MAX_TAG_LEN);
            return true;
        }
        i = i + 1;
    }
    false
}

/// Checks the inputs of a new post.
pub fn validate_new_post(content: &String, image_url: &Option<String>, tags: &Vec<String>) -> (r:
    Result<(), SocialPlatformError>)
    ensures
        r == outcome(new_post_error(content@, image_view(*image_url), tags@)),
{
    validate_content(content)?;
    if tags.len() > MAX_TAGS {
        return Err(SocialPlatformError::TooManyTags);
    }
    validate_image_url(image_url)?;
    if has_long_tag(tags) {
        return Err(SocialPlatformError::TagTooLong);
    }
    Ok(())
}

/// Checks the inputs of an edit.
pub fn validate_edit(content: &String, image_url: &Option<String>) -> (r: Result<
    (),
    SocialPlatformError,
>)
    ensures
        r == outcome(edit_error(content@, image_view(*image_url))),
{
    validate_content(content)?;
    validate_image_url(image_url)
}

/// Why a tip is refused before any value moves, checked in this order.
pub open spec fn tip_error(post: Post, tipper: Seq<u8>, recipient: Seq<u8>, amount: u64) -> Option<
    SocialPlatformError,
> {
    if amount == 0 {
        Some(SocialPlatformError::InvalidTipAmount)
    } else if amount < MIN_TIP {
        Some(SocialPlatformError::TipTooSmall)
    } else if tipper == post.author@ {
        Some(SocialPlatformError::CannotTipOwnPost)
    } else if !post.is_active {
        Some(SocialPlatformError::PostNotActive)
    } else if recipient != post.author@ {
        Some(SocialPlatformError::TipRecipientMismatch)
    } else if post.tips_received + amount > u64::MAX || post.tip_count == u64::MAX {
        Some(SocialPlatformError::ArithmeticOverflow)
    } else {
        None
    }
}

impl Post {
    /// The post that `create` stores for a profile in state `author_profile`.
    pub open spec fn created(
        author_profile: UserProfile,
        content: String,
        image_url: Option<String>,
        tags: Vec<String>,
        timestamp: i64,
        bump: u8,
    ) -> Post {
        Post {
            author: author_profile.owner,
            content,
            image_url,
            tags,
            timestamp,
            tips_received: 0,
            tip_count: 0,
            post_id: author_profile.post_count,
            is_active: true,
            bump,
        }
    }

    /// Creates the next post of the profile's owner. The post is numbered by the
    /// profile's `post_count`, which then goes up by one.
    pub fn create(
        author_profile: &mut UserProfile,
        content: String,
        image_url: Option<String>,
        tags: Vec<String>,
        timestamp: i64,
        bump: u8,
    ) -> (r: Result<Post, SocialPlatformError>)
        ensures
            new_post_error(content@, image_view(image_url), tags@) matches Some(e) ==> r == Err::<
                Post,
                SocialPlatformError,
            >(e) && *final(author_profile) == *old(author_profile),
            new_post_error(content@, image_view(image_url), tags@) is None && old(
                author_profile,
            ).post_count == u64::MAX ==> r == Err::<Post, SocialPlatformError>(
                SocialPlatformError::ArithmeticOverflow,
            ) && *final(author_profile) == *old(author_profile),
            new_post_error(content@, image_view(image_url), tags@) is None && old(
                author_profile,
            ).post_count < u64::MAX ==> r == Ok::<Post, SocialPlatformError>(
                Post::created(*old(author_profile), content, image_url, tags, timestamp, bump),
            ) && *final(author_profile) == old(author_profile).with_post_added(),
    {
        validate_new_post(&content, &image_url, &tags)?;
        let post_id = author_profile.post_count;
        author_profile.increment_post_count()?;
        Ok(
            Post {
                author: author_profile.owner,
                content,
                image_url,
                tags,
                timestamp,
                tips_received: 0,
                tip_count: 0,
                post_id,
                is_active: true,
                bump,
            },
        )
    }

    /// Decides whether a tip of `amount` from `tipper`, paid out to `recipient`, may go
    /// ahead; call before moving any value.
    pub fn check_tip(&self, tipper: &Key, recipient: &Key, amount: u64) -> (r: Result<
        (),
        SocialPlatformError,
    >)
        ensures
            r == outcome(tip_error(*self, tipper@, recipient@, amount)),
    {
        if amount == 0 {
            return Err(SocialPlatformError::InvalidTipAmount);
        }
        if amount < MIN_TIP {
            return Err(SocialPlatformError::TipTooSmall);
        }
        if tipper.same(&self.author) {
            return Err(SocialPlatformError::CannotTipOwnPost);
        }
        if !self.is_active {
            return Err(SocialPlatformError::PostNotActive);
        }
        if !recipient.same(&self.author) {
            return Err(SocialPlatformError::TipRecipientMismatch);
        }
        if amount > u64::MAX - self.tips_received || self.tip_count == u64::MAX {
            return Err(SocialPlatformError::ArithmeticOverflow);
        }
        Ok(())
    }

    /// Records a tip. `transferred` is the outcome of moving `amount` from the tipper to
    /// the recipient; the counters change only when the checks pass and it succeeded.
    pub fn tip(&mut self, tipper: &Key, recipient: &Key, amount: u64, transferred: bool) -> (r:
        Result<(), SocialPlatformError>)
        ensures
            tip_error(*old(self), tipper@, recipient@, amount) matches Some(e) ==> r == Err::<
                (),
                SocialPlatformError,
            >(e) && *final(self) == *old(self),
            tip_error(*old(self), tipper@, recipient@, amount) is None && !transferred
                ==> r == Err::<(), SocialPlatformError>(SocialPlatformError::TransferFailed)
                && *final(self) == *old(self),
            tip_error(*old(self), tipper@, recipient@, amount) is None && transferred ==> r
                == Ok::<(), SocialPlatformError>(()) && *final(self) == (Post {
                tips_received: (old(self).tips_received + amount) as u64,
                tip_count: (old(self).tip_count + 1) as u64,
                ..*old(self)
            }),
    {
        self.check_tip(tipper, recipient, amount)?;
        if !transferred {
            return Err(SocialPlatformError::TransferFailed);
        }
        self.tips_received = self.tips_received + amount;
        self.tip_count = self.tip_count + 1;
        Ok(())
    }

    /// Replaces content and image URL. Only the author may edit, and only an active post.
    pub fn edit(&mut self, caller: &Key, new_content: String, new_image_url: Option<String>) -> (r:
        Result<(), SocialPlatformError>)
        ensures
            caller@ != old(self).author@ ==> r == Err::<(), SocialPlatformError>(
                SocialPlatformError::UnauthorizedPostModification,
            ),
            caller@ == old(self).author@ ==> r == outcome(
                if edit_error(new_content@, image_view(new_image_url)) is Some {
                    edit_error(new_content@, image_view(new_image_url))
                } else if !old(self).is_active {
                    Some(SocialPlatformError::PostNotActive)
                } else {
                    None
                },
            ),
            r is Err ==> *final(self) == *old(self),
            r is Ok ==> *final(self) == (Post {
                content: new_content,
                image_url: new_image_url,
                ..*old(self)
            }),
    {
        if !caller.same(&self.author) {
            return Err(SocialPlatformError::UnauthorizedPostModification);
        }
        validate_edit(&new_content, &new_image_url)?;
        if !self.is_active {
            return Err(SocialPlatformError::PostNotActive);
        }
        self.content = new_content;
        self.image_url = new_image_url;
        Ok(())
    }

    /// Turns an active post inactive, for good. Only the author may do so; a second call
    /// fails with `PostNotActive`.
    pub fn deactivate(&mut self, caller: &Key) -> (r: Result<(), SocialPlatformError>)
        ensures
            caller@ != old(self).author@ ==> r == Err::<(), SocialPlatformError>(
                SocialPlatformError::UnauthorizedPostModification,
            ),
            caller@ == old(self).author@ && !old(self).is_active ==> r == Err::<
                (),
                SocialPlatformError,
            >(SocialPlatformError::PostNotActive),
            caller@ == old(self).author@ && old(self).is_active ==> r == Ok::<(), SocialPlatformError>(()),
            r is Err ==> *final(self) == *old(self),
            r is Ok ==> *final(self) == (Post { is_active: false, ..*old(self) }),
    {
        if !caller.same(&self.author) {
            return Err(SocialPlatformError::UnauthorizedPostModification);
        }
        if !self.is_active {
            return Err(SocialPlatformError::PostNotActive);
        }
        self.is_active = false;
        Ok(())
    }
}

} // verus!
