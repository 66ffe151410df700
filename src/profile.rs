//! User profiles: validation of usernames and the checked counter primitives.
use crate::address::Key;
use crate::error::SocialPlatformError;
use vstd::prelude::*;
use vstd::utf8::encode_utf8;

verus! {

/// Longest username, in bytes.
pub const MAX_USERNAME_LEN: usize = 32;

/// Length of a string in bytes (its UTF-8 encoding), as `str::len` reports it; the
/// bytes of a string in memory always fit in `usize`.
pub open spec fn byte_len(s: Seq<char>) -> usize {
    encode_utf8(s).len() as usize
}

/// Byte length of a `String`.
pub fn str_len(s: &String) -> (r: usize)
    ensures
        r == byte_len(s@),
{
    s.as_str().len()
}

/// `Ok(())` when no error was found, else that error.
pub open spec fn outcome(e: Option<SocialPlatformError>) -> Result<(), SocialPlatformError> {
    match e {
        Some(err) => Err(err),
        None => Ok(()),
    }
}

pub open spec fn username_error(name: Seq<char>) -> Option<SocialPlatformError> {
    if byte_len(name) > MAX_USERNAME_LEN {
        Some(SocialPlatformError::UsernameTooLong)
    } else if byte_len(name) == 0 {
        Some(SocialPlatformError::UsernameEmpty)
    } else {
        None
    }
}

/// A username is 1 to 32 bytes long.
pub fn validate_username(name: &String) -> (r: Result<(), SocialPlatformError>)
    ensures
        r == outcome(username_error(name@)),
{
    let n = str_len(name);
    if n > MAX_USERNAME_LEN {
        Err(SocialPlatformError::UsernameTooLong)
    } else if n == 0 {
        Err(SocialPlatformError::UsernameEmpty)
    } else {
        Ok(())
    }
}

#[derive(Debug)]
pub struct UserProfile {
    pub owner: Key,
    pub username: String,
    pub post_count: u64,
    pub followers_count: u64,
    pub following_count: u64,
    pub total_tips_received: u64,
    pub total_tips_sent: u64,
    pub created_at: i64,
    pub bump: u8,
}

impl UserProfile {
    /// A fresh profile: all counters at zero.
    pub open spec fn fresh(owner: Key, username: String, created_at: i64, bump: u8) -> UserProfile {
        UserProfile {
            owner,
            username,
            post_count: 0,
            followers_count: 0,
            following_count: 0,
            total_tips_received: 0,
            total_tips_sent: 0,
            created_at,
            bump,
        }
    }

    pub open spec fn with_post_added(self) -> UserProfile {
        UserProfile { post_count: (self.post_count + 1) as u64, ..self }
    }

    pub open spec fn with_following(self, n: int) -> UserProfile {
        UserProfile { following_count: n as u64, ..self }
    }

    pub open spec fn with_followers(self, n: int) -> UserProfile {
        UserProfile { followers_count: n as u64, ..self }
    }

    /// Creates the profile of `owner`, validating the username.
    pub fn new(owner: Key, username: String, created_at: i64, bump: u8) -> (r: Result<
        UserProfile,
        SocialPlatformError,
    >)
        ensures
            match username_error(username@) {
                Some(e) => r == Err::<UserProfile, SocialPlatformError>(e),
                None => r == Ok::<UserProfile, SocialPlatformError>(
                    UserProfile::fresh(owner, username, created_at, bump),
                ),
            },
    {
        match validate_username(&username) {
            Err(e) => Err(e),
            Ok(()) => Ok(
                UserProfile {
                    owner,
                    username,
                    post_count: 0,
                    followers_count: 0,
                    following_count: 0,
                    total_tips_received: 0,
                    total_tips_sent: 0,
                    created_at,
                    bump,
                },
            ),
        }
    }

    /// Replaces the username when one is given; `None` changes nothing.
    pub fn update_username(&mut self, new_username: Option<String>) -> (r: Result<
        (),
        SocialPlatformError,
    >)
        ensures
            match new_username {
                None => r == Ok::<(), SocialPlatformError>(()) && *final(self) == *old(self),
                Some(name) => r == outcome(username_error(name@)) && (r is Ok ==> *final(self)
                    == (UserProfile { username: name, ..*old(self) })) && (r is Err
                    ==> *final(self) == *old(self)),
            },
    {
        match new_username {
            None => Ok(()),
            Some(name) => {
                match validate_username(&name) {
                    Err(e) => Err(e),
                    Ok(()) => {
                        self.username = name;
                        Ok(())
                    },
                }
            },
        }
    }

    /// `post_count += 1`, failing only at `u64::MAX`.
    pub fn increment_post_count(&mut self) -> (r: Result<(), SocialPlatformError>)
        ensures
            old(self).post_count == u64::MAX ==> r == Err::<(), SocialPlatformError>(
                SocialPlatformError::ArithmeticOverflow,
            ) && *final(self) == *old(self),
            old(self).post_count < u64::MAX ==> r == Ok::<(), SocialPlatformError>(()) && *final(self)
                == old(self).with_post_added(),
    {
        if self.post_count == u64::MAX {
            return Err(SocialPlatformError::ArithmeticOverflow);
        }
        self.post_count = self.post_count + 1;
        Ok(())
    }

    /// `following_count` up by one (`up`) or down by one, checked both ways.
    pub fn adjust_following(&mut self, up: bool) -> (r: Result<(), SocialPlatformError>)
        ensures
            up && old(self).following_count == u64::MAX ==> r == Err::<(), SocialPlatformError>(
                SocialPlatformError::ArithmeticOverflow,
            ) && *final(self) == *old(self),
            !up && old(self).following_count == 0 ==> r == Err::<(), SocialPlatformError>(
                SocialPlatformError::ArithmeticUnderflow,
            ) && *final(self) == *old(self),
            up && old(self).following_count < u64::MAX ==> r == Ok::<(), SocialPlatformError>(()) && *final(self)
                == old(self).with_following(old(self).following_count + 1),
            !up && old(self).following_count > 0 ==> r == Ok::<(), SocialPlatformError>(()) && *final(self)
                == old(self).with_following(old(self).following_count - 1),
    {
        if up {
            if self.following_count == u64::MAX {
                return Err(SocialPlatformError::ArithmeticOverflow);
            }
            self.following_count = self.following_count + 1;
        } else {
            if self.following_count == 0 {
                return Err(SocialPlatformError::ArithmeticUnderflow);
            }
            self.following_count = self.following_count - 1;
        }
        Ok(())
    }

    /// `followers_count` up by one (`up`) or down by one, checked both ways.
    pub fn adjust_followers(&mut self, up: bool) -> (r: Result<(), SocialPlatformError>)
        ensures
            up && old(self).followers_count == u64::MAX ==> r == Err::<(), SocialPlatformError>(
                SocialPlatformError::ArithmeticOverflow,
            ) && *final(self) == *old(self),
            !up && old(self).followers_count == 0 ==> r == Err::<(), SocialPlatformError>(
                SocialPlatformError::ArithmeticUnderflow,
            ) && *final(self) == *old(self),
            up && old(self).followers_count < u64::MAX ==> r == Ok::<(), SocialPlatformError>(()) && *final(self)
                == old(self).with_followers(old(self).followers_count + 1),
            !up && old(self).followers_count > 0 ==> r == Ok::<(), SocialPlatformError>(()) && *final(self)
                == old(self).with_followers(old(self).followers_count - 1),
    {
        if up {
            if self.followers_count == u64::MAX {
                return Err(SocialPlatformError::ArithmeticOverflow);
            }
            self.followers_count = self.followers_count + 1;
        } else {
            if self.followers_count == 0 {
                return Err(SocialPlatformError::ArithmeticUnderflow);
            }
            self.followers_count = self.followers_count - 1;
        }
        Ok(())
    }
}

} // verus!
