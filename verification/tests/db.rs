use tgreddit::db::{like_match, DbError, Ledger};
use tgreddit::reddit::{Post, PostType, TopPostsTimePeriod};
use tgreddit::types::{Subscription, SubscriptionArgs};

fn cow_post(subreddit: &str) -> Post {
    Post {
        id: "v6nu75".into(),
        created: 1654581100,
        post_hint: Some("link".into()),
        subreddit: subreddit.into(),
        title: "Tipping a cow to trim its hooves".into(),
        is_self: false,
        is_video: false,
        is_gallery: Some(false),
        gallery_data: None,
        media_metadata: None,
        ups: 469,
        permalink: "/r/absoluteunit/comments/v6nu75/tipping_a_cow_to_trim_its_hooves/".into(),
        url: "https://i.imgur.com/Zt6f5mB.gifv".into(),
        post_type: PostType::Video,
    }
}

fn test_args() -> SubscriptionArgs {
    SubscriptionArgs {
        subreddit: "test".to_string(),
        limit: Some(1),
        time: Some(TopPostsTimePeriod::Week),
        filter: Some(PostType::Video),
    }
}

#[test]
fn test_db() {
    let mut db = Ledger::new();
    let post = cow_post("absoluteunit");

    assert!(!db.existing_posts_for_subreddit(1, "absoluteunit"));
    db.record_post_seen_with_current_time(1, &post);
    assert!(db.is_post_seen(1, &post));
    assert!(db.existing_posts_for_subreddit(1, "absoluteunit"));
}

#[test]
fn test_db_subscribe() {
    let mut db = Ledger::new();
    let subscription_args = test_args();
    db.subscribe(1, &subscription_args);

    let subs = db.get_subscriptions_for_chat(1);
    assert_eq!(
        subs,
        vec![Subscription {
            chat_id: 1,
            subreddit: "test".to_string(),
            limit: Some(1),
            time: Some(TopPostsTimePeriod::Week),
            filter: Some(PostType::Video),
        }]
    );
}

#[test]
fn test_db_unsubscribe() {
    let mut db = Ledger::new();
    let subscription_args = test_args();
    db.subscribe(1, &subscription_args);
    let subs = db.get_subscriptions_for_chat(1);
    assert_eq!(subs.len(), 1);
    let deleted = db.unsubscribe(1, "test").unwrap();
    assert_eq!(deleted, "test");
    let subs = db.get_subscriptions_for_chat(1);
    assert_eq!(subs, vec![]);
}

#[test]
fn test_db_unsubscribe_doesnt_delete_posts() {
    let mut db = Ledger::new();
    let subscription_args = test_args();
    db.subscribe(1, &subscription_args);
    let post = cow_post("test");
    db.record_post_seen_with_current_time(1, &post);
    assert!(db.is_post_seen(1, &post));
    db.unsubscribe(1, "test").unwrap();
    assert!(db.is_post_seen(1, &post));
}

#[test]
fn a_pending_record_is_not_seen_until_it_gets_a_time() {
    let mut db = Ledger::new();
    let post = cow_post("absoluteunit");
    db.record_post(1, &post, None);
    assert!(!db.is_post_seen(1, &post));
    assert!(db.existing_posts_for_subreddit(1, "absoluteunit"));
    assert_eq!(
        db.get_post_title(1, "v6nu75"),
        Ok("Tipping a cow to trim its hooves".to_string())
    );
    db.record_post(1, &post, Some(1700000000));
    assert!(db.is_post_seen(1, &post));
    assert!(!db.is_post_seen(2, &post));
}

#[test]
fn marking_seen_twice_keeps_the_first_record() {
    let mut db = Ledger::new();
    let mut post = cow_post("absoluteunit");
    db.record_post(1, &post, Some(100));
    post.title = "Another title".into();
    post.subreddit = "elsewhere".into();
    db.record_post(1, &post, Some(200));
    db.record_post(1, &post, None);
    assert!(db.is_post_seen(1, &post));
    assert_eq!(
        db.get_post_title(1, "v6nu75"),
        Ok("Tipping a cow to trim its hooves".to_string())
    );
    assert!(!db.existing_posts_for_subreddit(1, "elsewhere"));
}

#[test]
fn titles_are_kept_by_chat() {
    let mut db = Ledger::new();
    let post = cow_post("absoluteunit");
    assert_eq!(db.get_post_title(1, "v6nu75"), Err(DbError::NoSuchRow));
    db.record_post(1, &post, Some(5));
    assert_eq!(db.get_post_title(2, "v6nu75"), Err(DbError::NoSuchRow));
    assert_eq!(db.get_post_title(1, "other"), Err(DbError::NoSuchRow));
}

#[test]
fn subscribing_again_replaces_and_moves_to_the_end() {
    let mut db = Ledger::new();
    db.subscribe(1, &test_args());
    db.subscribe(
        1,
        &SubscriptionArgs { subreddit: "aww".to_string(), limit: None, time: None, filter: None },
    );
    db.subscribe(
        2,
        &SubscriptionArgs { subreddit: "test".to_string(), limit: None, time: None, filter: None },
    );
    db.subscribe(
        1,
        &SubscriptionArgs {
            subreddit: "test".to_string(),
            limit: Some(9),
            time: None,
            filter: None,
        },
    );
    let all = db.get_all_subscriptions();
    let names: Vec<(i64, &str, Option<u32>)> =
        all.iter().map(|s| (s.chat_id, s.subreddit.as_str(), s.limit)).collect();
    assert_eq!(names, vec![(1, "aww", None), (2, "test", None), (1, "test", Some(9))]);
    let mine = db.get_subscriptions_for_chat(1);
    assert_eq!(mine.len(), 2);
    assert_eq!(mine[0].subreddit, "aww");
    assert_eq!(mine[1].subreddit, "test");
    assert!(db.get_subscriptions_for_chat(3).is_empty());
}

#[test]
fn unsubscribe_matches_like_a_pattern() {
    let mut db = Ledger::new();
    for name in ["Aww", "awwducational", "pics"] {
        db.subscribe(
            1,
            &SubscriptionArgs { subreddit: name.to_string(), limit: None, time: None, filter: None },
        );
    }
    db.subscribe(
        2,
        &SubscriptionArgs { subreddit: "aww".to_string(), limit: None, time: None, filter: None },
    );
    assert_eq!(db.unsubscribe(1, "nothing"), Err(DbError::NoSuchRow));
    assert_eq!(db.get_all_subscriptions().len(), 4);
    assert_eq!(db.unsubscribe(1, "aww"), Ok("Aww".to_string()));
    assert_eq!(db.get_subscriptions_for_chat(1).len(), 2);
    assert_eq!(db.unsubscribe(1, "%"), Ok("awwducational".to_string()));
    assert!(db.get_subscriptions_for_chat(1).is_empty());
    assert_eq!(db.get_subscriptions_for_chat(2).len(), 1);
}

#[test]
fn like_knows_both_wildcards_and_folds_ascii_only() {
    assert!(like_match("", ""));
    assert!(!like_match("", "a"));
    assert!(like_match("%", ""));
    assert!(like_match("%", "anything"));
    assert!(like_match("a%c", "abbbc"));
    assert!(like_match("a%c", "ac"));
    assert!(!like_match("a%c", "abd"));
    assert!(like_match("_b_", "abc"));
    assert!(!like_match("_", ""));
    assert!(!like_match("__", "a"));
    assert!(like_match("AbC", "aBc"));
    assert!(!like_match("abc", "abcd"));
    assert!(!like_match("\u{e9}", "\u{c9}"));
    assert!(like_match("%a%a%", "banana"));
    assert!(!like_match("@", "`"));
    assert!(!like_match("[", "{"));
}

#[test]
fn repost_channel_has_three_states() {
    let mut db = Ledger::new();
    assert_eq!(db.get_repost_channel(1), Ok(None));
    db.ensure_chat_exists(1);
    assert_eq!(db.get_repost_channel(1), Err(DbError::NoRepostChannel));
    db.set_repost_channel(1, -100123);
    assert_eq!(db.get_repost_channel(1), Ok(Some(-100123)));
    db.set_repost_channel(1, -100456);
    assert_eq!(db.get_repost_channel(1), Ok(Some(-100456)));
    db.set_repost_channel(2, 5);
    assert_eq!(db.get_repost_channel(2), Ok(Some(5)));
    assert_eq!(db.get_repost_channel(1), Ok(Some(-100456)));
    db.subscribe(3, &test_args());
    assert_eq!(db.get_repost_channel(3), Err(DbError::NoRepostChannel));
}

#[test]
fn files_are_kept_in_order_and_once() {
    let mut db = Ledger::new();
    let post = cow_post("absoluteunit");
    assert_eq!(db.add_telegram_file("v6nu75", 1, "f1", "u1"), Err(DbError::UnknownPost));
    db.record_post(1, &post, None);
    assert_eq!(db.add_telegram_file("v6nu75", 1, "f1", "u1"), Ok(()));
    assert_eq!(db.add_telegram_file("v6nu75", 1, "f2", "u2"), Ok(()));
    assert_eq!(db.add_telegram_file("v6nu75", 1, "f3", "u1"), Ok(()));
    assert_eq!(db.add_telegram_file("v6nu75", 2, "f4", "u4"), Err(DbError::UnknownPost));
    assert_eq!(db.get_telegram_files_for_post("v6nu75", 1), vec!["f1", "f2"]);
    assert!(db.get_telegram_files_for_post("v6nu75", 2).is_empty());
    assert!(db.get_telegram_files_for_post("other", 1).is_empty());
}
