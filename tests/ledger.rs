use social_ledger::address::{follow_address, post_address, profile_address, u64_le_bytes, Key};
use social_ledger::error::SocialPlatformError;
use social_ledger::follow::{follow, unfollow};
use social_ledger::ledger::Ledger;
use social_ledger::post::Post;
use social_ledger::profile::UserProfile;

fn key(b: u8) -> Key {
    Key::new([b; 32])
}

fn ledger_with_users() -> Ledger {
    let mut l = Ledger::new(key(9));
    assert_eq!(l.initialize_user(&key(1), "alice".to_string(), 100), Ok(()));
    assert_eq!(l.initialize_user(&key(2), "bob".to_string(), 101), Ok(()));
    l
}

#[test]
fn initialize_sets_fresh_profile() {
    let l = ledger_with_users();
    let p = l.profile(&key(1)).unwrap();
    assert_eq!(p.owner.bytes, [1u8; 32]);
    assert_eq!(p.username, "alice");
    assert_eq!(p.post_count, 0);
    assert_eq!(p.followers_count, 0);
    assert_eq!(p.following_count, 0);
    assert_eq!(p.created_at, 100);
    let (_, bump) = profile_address(&key(9), &key(1)).unwrap();
    assert_eq!(p.bump, bump);
}

#[test]
fn initialize_twice_is_duplicate() {
    let mut l = ledger_with_users();
    assert_eq!(
        l.initialize_user(&key(1), "other".to_string(), 200),
        Err(SocialPlatformError::DuplicateProfile)
    );
    assert_eq!(l.profile(&key(1)).unwrap().username, "alice");
    assert_eq!(l.profile(&key(1)).unwrap().created_at, 100);
}

#[test]
fn initialize_rejects_bad_usernames() {
    let mut l = Ledger::new(key(9));
    assert_eq!(
        l.initialize_user(&key(3), String::new(), 1),
        Err(SocialPlatformError::UsernameEmpty)
    );
    assert_eq!(
        l.initialize_user(&key(3), "x".repeat(33), 1),
        Err(SocialPlatformError::UsernameTooLong)
    );
    assert!(l.profile(&key(3)).is_none());
    assert_eq!(l.initialize_user(&key(3), "x".repeat(32), 1), Ok(()));
}

#[test]
fn username_length_counts_bytes() {
    let mut l = Ledger::new(key(9));
    // 11 two-byte characters: 22 bytes, accepted; 17 of them: 34 bytes, refused.
    assert_eq!(l.initialize_user(&key(4), "é".repeat(11), 1), Ok(()));
    assert_eq!(
        l.initialize_user(&key(5), "é".repeat(17), 1),
        Err(SocialPlatformError::UsernameTooLong)
    );
}

#[test]
fn update_profile_changes_username() {
    let mut l = ledger_with_users();
    assert_eq!(l.update_profile(&key(1), None), Ok(()));
    assert_eq!(l.profile(&key(1)).unwrap().username, "alice");
    assert_eq!(
        l.update_profile(&key(1), Some(String::new())),
        Err(SocialPlatformError::UsernameEmpty)
    );
    assert_eq!(l.update_profile(&key(1), Some("alicia".to_string())), Ok(()));
    assert_eq!(l.profile(&key(1)).unwrap().username, "alicia");
    assert_eq!(
        l.update_profile(&key(7), Some("ghost".to_string())),
        Err(SocialPlatformError::ProfileNotFound)
    );
}

#[test]
fn create_post_numbers_posts() {
    let mut l = ledger_with_users();
    for i in 0..3u64 {
        assert_eq!(l.create_post(&key(1), format!("post {}", i), None, vec![], 10), Ok(()));
    }
    assert_eq!(l.profile(&key(1)).unwrap().post_count, 3);
    assert_eq!(l.create_post(&key(1), "hi".to_string(), None, vec![], 11), Ok(()));
    let post = l.post(&key(1), 3).unwrap();
    assert_eq!(post.post_id, 3);
    assert_eq!(post.content, "hi");
    assert!(post.is_active);
    assert_eq!(post.tips_received, 0);
    assert_eq!(post.tip_count, 0);
    assert_eq!(post.timestamp, 11);
    assert_eq!(l.profile(&key(1)).unwrap().post_count, 4);
    for i in 0..4u64 {
        assert_eq!(l.post(&key(1), i).unwrap().post_id, i);
    }
}

#[test]
fn create_post_rejects_bad_inputs() {
    let mut l = ledger_with_users();
    assert_eq!(
        l.create_post(&key(1), String::new(), None, vec![], 1),
        Err(SocialPlatformError::ContentEmpty)
    );
    assert_eq!(
        l.create_post(&key(1), "a".repeat(281), None, vec![], 1),
        Err(SocialPlatformError::ContentTooLong)
    );
    let six: Vec<String> = (0..6).map(|i| format!("t{}", i)).collect();
    assert_eq!(
        l.create_post(&key(1), "ok".to_string(), None, six, 1),
        Err(SocialPlatformError::TooManyTags)
    );
    assert_eq!(
        l.create_post(&key(1), "ok".to_string(), Some("u".repeat(201)), vec![], 1),
        Err(SocialPlatformError::ImageUrlTooLong)
    );
    assert_eq!(
        l.create_post(&key(1), "ok".to_string(), None, vec!["t".repeat(33)], 1),
        Err(SocialPlatformError::TagTooLong)
    );
    assert_eq!(
        l.create_post(&key(7), "ok".to_string(), None, vec![], 1),
        Err(SocialPlatformError::ProfileNotFound)
    );
    assert_eq!(l.profile(&key(1)).unwrap().post_count, 0);
    let five: Vec<String> = (0..5).map(|_| "t".repeat(32)).collect();
    assert_eq!(
        l.create_post(&key(1), "a".repeat(280), Some("u".repeat(200)), five, 1),
        Ok(())
    );
    assert_eq!(l.post(&key(1), 0).unwrap().tags.len(), 5);
}

#[test]
fn tip_minimum_and_below() {
    let mut l = ledger_with_users();
    l.create_post(&key(1), "tip me".to_string(), None, vec![], 1).unwrap();
    assert_eq!(
        l.tip_post(&key(1), 0, &key(2), 500, true),
        Err(SocialPlatformError::TipTooSmall)
    );
    assert_eq!(l.post(&key(1), 0).unwrap().tips_received, 0);
    assert_eq!(l.post(&key(1), 0).unwrap().tip_count, 0);
    assert_eq!(l.tip_post(&key(1), 0, &key(2), 1000, true), Ok(()));
    assert_eq!(l.post(&key(1), 0).unwrap().tips_received, 1000);
    assert_eq!(l.post(&key(1), 0).unwrap().tip_count, 1);
    assert_eq!(l.tip_post(&key(1), 0, &key(2), 2500, true), Ok(()));
    assert_eq!(l.post(&key(1), 0).unwrap().tips_received, 3500);
    assert_eq!(l.post(&key(1), 0).unwrap().tip_count, 2);
}

#[test]
fn tip_errors() {
    let mut l = ledger_with_users();
    l.create_post(&key(1), "tip me".to_string(), None, vec![], 1).unwrap();
    assert_eq!(
        l.tip_post(&key(1), 0, &key(2), 0, true),
        Err(SocialPlatformError::InvalidTipAmount)
    );
    assert_eq!(
        l.tip_post(&key(1), 0, &key(1), 1000, true),
        Err(SocialPlatformError::CannotTipOwnPost)
    );
    assert_eq!(
        l.tip_post(&key(1), 0, &key(2), 1000, false),
        Err(SocialPlatformError::TransferFailed)
    );
    assert_eq!(
        l.tip_post(&key(1), 5, &key(2), 1000, true),
        Err(SocialPlatformError::PostNotFound)
    );
    assert_eq!(l.post(&key(1), 0).unwrap().tip_count, 0);
    l.deactivate_post(&key(1), 0).unwrap();
    assert_eq!(
        l.tip_post(&key(1), 0, &key(2), 1000, true),
        Err(SocialPlatformError::PostNotActive)
    );
}

#[test]
fn tip_checks_recipient_and_overflow() {
    let mut l = ledger_with_users();
    l.create_post(&key(1), "tip me".to_string(), None, vec![], 1).unwrap();
    let post = l.post(&key(1), 0).unwrap();
    assert_eq!(
        post.check_tip(&key(2), &key(3), 1000),
        Err(SocialPlatformError::TipRecipientMismatch)
    );
    assert_eq!(post.check_tip(&key(2), &key(1), 1000), Ok(()));
    let mut p = Post {
        author: key(1),
        content: "x".to_string(),
        image_url: None,
        tags: vec![],
        timestamp: 0,
        tips_received: u64::MAX - 999,
        tip_count: 0,
        post_id: 0,
        is_active: true,
        bump: 0,
    };
    assert_eq!(p.tip(&key(2), &key(1), 1000, true), Err(SocialPlatformError::ArithmeticOverflow));
    assert_eq!(p.tips_received, u64::MAX - 999);
    assert_eq!(p.tip(&key(2), &key(1), 999, true), Err(SocialPlatformError::TipTooSmall));
    p.tips_received = 0;
    p.tip_count = u64::MAX;
    assert_eq!(p.tip(&key(2), &key(1), 1000, true), Err(SocialPlatformError::ArithmeticOverflow));
}

#[test]
fn deactivate_and_edit_inactive() {
    let mut l = ledger_with_users();
    l.create_post(&key(1), "first".to_string(), None, vec![], 1).unwrap();
    assert_eq!(l.deactivate_post(&key(1), 0), Ok(()));
    assert!(!l.post(&key(1), 0).unwrap().is_active);
    assert_eq!(l.deactivate_post(&key(1), 0), Err(SocialPlatformError::PostNotActive));
    assert_eq!(
        l.edit_post(&key(1), 0, "second".to_string(), None),
        Err(SocialPlatformError::PostNotActive)
    );
    assert_eq!(l.post(&key(1), 0).unwrap().content, "first");
}

#[test]
fn edit_replaces_content_and_image() {
    let mut l = ledger_with_users();
    l.create_post(&key(1), "first".to_string(), None, vec!["a".to_string()], 1).unwrap();
    assert_eq!(
        l.edit_post(&key(1), 0, "second".to_string(), Some("http://x".to_string())),
        Ok(())
    );
    let p = l.post(&key(1), 0).unwrap();
    assert_eq!(p.content, "second");
    assert_eq!(p.image_url, Some("http://x".to_string()));
    assert_eq!(p.tags, vec!["a".to_string()]);
    assert_eq!(
        l.edit_post(&key(1), 0, String::new(), None),
        Err(SocialPlatformError::ContentEmpty)
    );
    assert_eq!(
        l.edit_post(&key(1), 0, "third".to_string(), Some("u".repeat(201))),
        Err(SocialPlatformError::ImageUrlTooLong)
    );
    assert_eq!(l.post(&key(1), 0).unwrap().content, "second");
}

#[test]
fn only_author_modifies_post() {
    let mut l = ledger_with_users();
    l.create_post(&key(1), "mine".to_string(), None, vec![], 1).unwrap();
    let mut post = Post {
        author: key(1),
        content: "mine".to_string(),
        image_url: None,
        tags: vec![],
        timestamp: 0,
        tips_received: 0,
        tip_count: 0,
        post_id: 0,
        is_active: true,
        bump: 0,
    };
    assert_eq!(
        post.edit(&key(2), "yours".to_string(), None),
        Err(SocialPlatformError::UnauthorizedPostModification)
    );
    assert_eq!(
        post.deactivate(&key(2)),
        Err(SocialPlatformError::UnauthorizedPostModification)
    );
    assert!(post.is_active);
    assert_eq!(l.deactivate_post(&key(2), 0), Err(SocialPlatformError::PostNotFound));
}

#[test]
fn follow_then_unfollow_restores_counters() {
    let mut l = ledger_with_users();
    assert_eq!(l.follow_user(&key(1), &key(2), 5), Ok(()));
    assert_eq!(l.profile(&key(1)).unwrap().following_count, 1);
    assert_eq!(l.profile(&key(2)).unwrap().followers_count, 1);
    let rec = l.follow_record(&key(1), &key(2)).unwrap();
    assert_eq!(rec.follower.bytes, [1u8; 32]);
    assert_eq!(rec.following.bytes, [2u8; 32]);
    assert_eq!(rec.timestamp, 5);
    assert_eq!(l.unfollow_user(&key(1), &key(2)), Ok(()));
    assert_eq!(l.profile(&key(1)).unwrap().following_count, 0);
    assert_eq!(l.profile(&key(2)).unwrap().followers_count, 0);
    assert!(l.follow_record(&key(1), &key(2)).is_none());
    assert_eq!(l.unfollow_user(&key(1), &key(2)), Err(SocialPlatformError::FollowNotFound));
    assert_eq!(l.profile(&key(1)).unwrap().following_count, 0);
    assert_eq!(l.profile(&key(2)).unwrap().followers_count, 0);
}

#[test]
fn follow_twice_counts_once() {
    let mut l = ledger_with_users();
    assert_eq!(l.follow_user(&key(1), &key(2), 5), Ok(()));
    assert_eq!(l.follow_user(&key(1), &key(2), 6), Err(SocialPlatformError::DuplicateFollow));
    assert_eq!(l.profile(&key(1)).unwrap().following_count, 1);
    assert_eq!(l.profile(&key(2)).unwrap().followers_count, 1);
    assert_eq!(l.follow_record(&key(1), &key(2)).unwrap().timestamp, 5);
    assert_eq!(l.follows.keys.len(), 1);
}

#[test]
fn follow_errors() {
    let mut l = ledger_with_users();
    assert_eq!(l.follow_user(&key(1), &key(1), 5), Err(SocialPlatformError::CannotFollowSelf));
    assert_eq!(l.follow_user(&key(1), &key(7), 5), Err(SocialPlatformError::ProfileNotFound));
    assert_eq!(l.profile(&key(1)).unwrap().following_count, 0);
    assert!(l.follow_record(&key(1), &key(7)).is_none());
}

#[test]
fn follow_and_unfollow_counters_checked() {
    let mut a = UserProfile::new(key(1), "a".to_string(), 0, 0).unwrap();
    let mut b = UserProfile::new(key(2), "b".to_string(), 0, 0).unwrap();
    b.followers_count = u64::MAX;
    assert_eq!(
        follow(&mut a, &mut b, &key(1), &key(2), 0, 0).map(|_| ()),
        Err(SocialPlatformError::ArithmeticOverflow)
    );
    assert_eq!(a.following_count, 0);
    b.followers_count = 0;
    let rec = follow(&mut a, &mut b, &key(1), &key(2), 3, 7).unwrap();
    assert_eq!(rec.bump, 7);
    assert_eq!(
        unfollow(&rec, &mut a, &mut b, &key(2)),
        Err(SocialPlatformError::UnauthorizedUnfollow)
    );
    b.followers_count = 0;
    assert_eq!(
        unfollow(&rec, &mut a, &mut b, &key(1)),
        Err(SocialPlatformError::ArithmeticUnderflow)
    );
    assert_eq!(a.following_count, 1);
}

#[test]
fn profile_counter_primitives() {
    let mut p = UserProfile::new(key(1), "a".to_string(), 0, 0).unwrap();
    assert_eq!(p.adjust_following(false), Err(SocialPlatformError::ArithmeticUnderflow));
    assert_eq!(p.adjust_followers(false), Err(SocialPlatformError::ArithmeticUnderflow));
    assert_eq!(p.adjust_following(true), Ok(()));
    assert_eq!(p.following_count, 1);
    p.post_count = u64::MAX;
    assert_eq!(p.increment_post_count(), Err(SocialPlatformError::ArithmeticOverflow));
    assert_eq!(p.post_count, u64::MAX);
    p.followers_count = u64::MAX;
    assert_eq!(p.adjust_followers(true), Err(SocialPlatformError::ArithmeticOverflow));
}

#[test]
fn create_post_at_counter_limit_overflows() {
    let mut p = UserProfile::new(key(1), "a".to_string(), 0, 0).unwrap();
    p.post_count = u64::MAX;
    assert_eq!(
        Post::create(&mut p, "hi".to_string(), None, vec![], 0, 0).map(|_| ()),
        Err(SocialPlatformError::ArithmeticOverflow)
    );
    assert_eq!(p.post_count, u64::MAX);
    p.post_count = 3;
    let post = Post::create(&mut p, "hi".to_string(), None, vec![], 0, 0).unwrap();
    assert_eq!(post.post_id, 3);
    assert_eq!(p.post_count, 4);
    assert_eq!(
        Post::create(&mut p, String::new(), None, vec![], 0, 0).map(|_| ()),
        Err(SocialPlatformError::ContentEmpty)
    );
}

#[test]
fn addresses_are_deterministic_and_distinct() {
    let program = key(9);
    let a1 = profile_address(&program, &key(1)).unwrap();
    let a2 = profile_address(&program, &key(1)).unwrap();
    let b = profile_address(&program, &key(2)).unwrap();
    assert_eq!(a1.0.bytes, a2.0.bytes);
    assert_eq!(a1.1, a2.1);
    assert_ne!(a1.0.bytes, b.0.bytes);
    assert_ne!(a1.0.bytes, [1u8; 32]);
    let p0 = post_address(&program, &key(1), 0).unwrap();
    let p1 = post_address(&program, &key(1), 1).unwrap();
    assert_ne!(p0.0.bytes, p1.0.bytes);
    let f12 = follow_address(&program, &key(1), &key(2)).unwrap();
    let f21 = follow_address(&program, &key(2), &key(1)).unwrap();
    assert_ne!(f12.0.bytes, f21.0.bytes);
    let other = profile_address(&key(8), &key(1)).unwrap();
    assert_ne!(a1.0.bytes, other.0.bytes);
}

#[test]
fn le_bytes_of_u64() {
    assert_eq!(u64_le_bytes(0x0102030405060708), vec![8, 7, 6, 5, 4, 3, 2, 1]);
    assert_eq!(u64_le_bytes(3), 3u64.to_le_bytes().to_vec());
    assert_eq!(u64_le_bytes(u64::MAX), vec![255; 8]);
}

#[test]
fn key_equality() {
    assert!(key(1).same(&key(1)));
    let mut b = [1u8; 32];
    b[31] = 2;
    assert!(!key(1).same(&Key::new(b)));
}
