use tgreddit::bot::{
    args_from_parts, callback_handler, handle_command, handle_get_command, handle_repost,
    handle_repost_gallery, parse_subscribe_message, subscribe_outcome, unsubscribe_reply,
    AboutOutcome, CallbackPlan, Command, CommandPlan, GalleryRepostPlan, GetPlan, ParseError,
    RepostMedia, RepostPlan, SubscribeOutcome, FAILURE_REPLY, NOT_REGISTERED_REPLY,
};
use tgreddit::config::{Config, FetchSettings};
use tgreddit::reddit::{Post, PostType, TopPostsTimePeriod};
use tgreddit::types::{ButtonCallbackData, SubscriptionArgs};

#[test]
fn test_parse_subscribe_message_only_subreddit() {
    let args = parse_subscribe_message("AnimalsBeingJerks".to_string()).unwrap();
    assert_eq!(
        args.0,
        SubscriptionArgs {
            subreddit: "AnimalsBeingJerks".to_string(),
            limit: None,
            time: None,
            filter: None,
        },
    )
}

#[test]
fn test_parse_subscribe_message_strips_prefix() {
    let args = parse_subscribe_message("r/AnimalsBeingJerks".to_string()).unwrap();
    assert_eq!(
        args.0,
        SubscriptionArgs {
            subreddit: "AnimalsBeingJerks".to_string(),
            limit: None,
            time: None,
            filter: None,
        },
    );

    let args = parse_subscribe_message("/r/AnimalsBeingJerks".to_string()).unwrap();
    assert_eq!(
        args.0,
        SubscriptionArgs {
            subreddit: "AnimalsBeingJerks".to_string(),
            limit: None,
            time: None,
            filter: None,
        },
    )
}

#[test]
fn test_parse_subscribe_message() {
    let args =
        parse_subscribe_message("AnimalsBeingJerks limit=5 time=week filter=video".to_string())
            .unwrap();
    assert_eq!(
        args.0,
        SubscriptionArgs {
            subreddit: "AnimalsBeingJerks".to_string(),
            limit: Some(5),
            time: Some(TopPostsTimePeriod::Week),
            filter: Some(PostType::Video),
        },
    )
}

#[test]
fn on_demand_arguments_parse_as_written() {
    let args = parse_subscribe_message("pics limit=5 time=week filter=video".to_string()).unwrap();
    assert_eq!(
        args.0,
        SubscriptionArgs {
            subreddit: "pics".to_string(),
            limit: Some(5),
            time: Some(TopPostsTimePeriod::Week),
            filter: Some(PostType::Video),
        },
    );
    let args = parse_subscribe_message("r/pics".to_string()).unwrap();
    assert_eq!(args.0.subreddit, "pics");
}

#[test]
fn parse_without_a_name_is_refused() {
    assert_eq!(
        parse_subscribe_message("".to_string()),
        Err(ParseError::NoSubreddit)
    );
    assert_eq!(
        parse_subscribe_message(" pics".to_string()),
        Err(ParseError::NoSubreddit)
    );
    assert_eq!(ParseError::NoSubreddit.to_string(), "No subreddit given");
}

#[test]
fn parse_refuses_unknown_window_before_unknown_kind() {
    assert_eq!(
        parse_subscribe_message("pics time=decade filter=hologram".to_string()),
        Err(ParseError::UnknownTimePeriod)
    );
    assert_eq!(
        parse_subscribe_message("pics time=day filter=hologram".to_string()),
        Err(ParseError::UnknownPostType)
    );
    assert_eq!(
        parse_subscribe_message("pics filter=Video".to_string()),
        Err(ParseError::UnknownPostType)
    );
    assert_eq!(
        ParseError::UnknownTimePeriod.to_string(),
        "Matching variant not found"
    );
}

#[test]
fn parse_reads_settings_behind_the_name_only() {
    let args = parse_subscribe_message("limit=5".to_string()).unwrap();
    assert_eq!(
        args.0,
        SubscriptionArgs {
            subreddit: "limit=5".to_string(),
            limit: None,
            time: None,
            filter: None,
        },
    );
}

#[test]
fn parse_takes_settings_in_any_order_and_a_name_with_unicode() {
    let args = parse_subscribe_message("/r/caf\u{e9} filter=self_text limit=12".to_string()).unwrap();
    assert_eq!(
        args.0,
        SubscriptionArgs {
            subreddit: "caf\u{e9}".to_string(),
            limit: Some(12),
            time: None,
            filter: Some(PostType::SelfText),
        },
    );
}

#[test]
fn parse_drops_a_limit_that_does_not_fit() {
    let args = parse_subscribe_message("pics limit=4294967296".to_string()).unwrap();
    assert_eq!(args.0.limit, None);
    let args = parse_subscribe_message("pics limit=4294967295".to_string()).unwrap();
    assert_eq!(args.0.limit, Some(4294967295));
}

#[test]
fn parts_give_arguments() {
    assert_eq!(
        args_from_parts("r/r/aww", Some("007"), Some("all"), Some("gallery")),
        Ok(SubscriptionArgs {
            subreddit: "raww".to_string(),
            limit: Some(7),
            time: Some(TopPostsTimePeriod::All),
            filter: Some(PostType::Gallery),
        })
    );
    assert_eq!(
        args_from_parts("aww", Some("x"), None, None),
        Ok(SubscriptionArgs {
            subreddit: "aww".to_string(),
            limit: None,
            time: None,
            filter: None,
        })
    );
    assert_eq!(
        args_from_parts("aww", None, Some(""), None),
        Err(ParseError::UnknownTimePeriod)
    );
}

#[test]
fn commands_become_plans() {
    let config = Config {
        authorized_user_ids: vec![],
        check_interval_secs: 1,
        skip_initial_send: true,
        links_base_url: None,
        default_limit: Some(3),
        default_time: None,
        default_filter: None,
    };
    assert!(matches!(handle_command(Command::Help, &config), CommandPlan::Help));
    assert!(matches!(
        handle_command(Command::ListSubs, &config),
        CommandPlan::ListSubscriptions
    ));
    let args = SubscriptionArgs {
        subreddit: "aww".to_string(),
        limit: None,
        time: Some(TopPostsTimePeriod::Year),
        filter: None,
    };
    match handle_command(Command::Sub(args.clone()), &config) {
        CommandPlan::LookUp { args: planned } => assert_eq!(planned, args),
        other => panic!("unexpected plan {other:?}"),
    }
    match handle_command(Command::Get(args.clone()), &config) {
        CommandPlan::Fetch { subreddit, settings } => {
            assert_eq!(subreddit, "aww");
            assert_eq!(
                settings,
                FetchSettings { limit: 3, time: TopPostsTimePeriod::Year, filter: None }
            );
        }
        other => panic!("unexpected plan {other:?}"),
    }
    match handle_command(Command::Unsub("/r/aww".to_string()), &config) {
        CommandPlan::Unsubscribe { subreddit } => assert_eq!(subreddit, "/aww"),
        other => panic!("unexpected plan {other:?}"),
    }
    match handle_command(Command::Unsub("r/aww".to_string()), &config) {
        CommandPlan::Unsubscribe { subreddit } => assert_eq!(subreddit, "aww"),
        other => panic!("unexpected plan {other:?}"),
    }
    match handle_command(Command::RegisterChannel(-1001234), &config) {
        CommandPlan::RegisterChannel { channel_id, reply } => {
            assert_eq!(channel_id, -1001234);
            assert_eq!(reply, "Repost channel -1001234 added successfully");
        }
        other => panic!("unexpected plan {other:?}"),
    }
    match handle_command(
        Command::RepostToChannel { message_id: 7, description: String::new() },
        &config,
    ) {
        CommandPlan::Repost { message_id, caption } => {
            assert_eq!(message_id, 7);
            assert_eq!(caption, None);
        }
        other => panic!("unexpected plan {other:?}"),
    }
    match handle_command(
        Command::RepostToChannel { message_id: 8, description: "look".to_string() },
        &config,
    ) {
        CommandPlan::Repost { message_id, caption } => {
            assert_eq!(message_id, 8);
            assert_eq!(caption, Some("look".to_string()));
        }
        other => panic!("unexpected plan {other:?}"),
    }
}

#[test]
fn subscribe_goes_by_what_the_source_says() {
    let args = SubscriptionArgs {
        subreddit: "animalsbeingjerks".to_string(),
        limit: Some(2),
        time: None,
        filter: Some(PostType::Video),
    };
    match subscribe_outcome(
        args.clone(),
        AboutOutcome::Found { display_name: "AnimalsBeingJerks".to_string() },
    ) {
        SubscribeOutcome::Subscribe { args: entered, reply } => {
            assert_eq!(
                entered,
                SubscriptionArgs {
                    subreddit: "AnimalsBeingJerks".to_string(),
                    limit: Some(2),
                    time: None,
                    filter: Some(PostType::Video),
                }
            );
            assert_eq!(reply, "Subscribed to r/AnimalsBeingJerks");
        }
        other => panic!("unexpected outcome {other:?}"),
    }
    match subscribe_outcome(args.clone(), AboutOutcome::NoSuchSubreddit) {
        SubscribeOutcome::Reply { text } => assert_eq!(text, "No such subreddit"),
        other => panic!("unexpected outcome {other:?}"),
    }
    assert!(matches!(
        subscribe_outcome(args, AboutOutcome::Failed),
        SubscribeOutcome::Fail
    ));
}

#[test]
fn replies_are_worded() {
    assert_eq!(unsubscribe_reply("aww", Some("Aww")), "Unsubscribed from r/Aww");
    assert_eq!(unsubscribe_reply("aww", None), "Error: Not subscribed to r/aww");
    assert_eq!(FAILURE_REPLY, "Something went wrong");
    assert_eq!(NOT_REGISTERED_REPLY, "Repost channel not registered");
}

fn kind_post(id: &str, kind: PostType) -> Post {
    Post {
        id: id.into(),
        created: 0,
        post_hint: None,
        subreddit: "aww".into(),
        title: "t".into(),
        is_self: false,
        is_video: false,
        is_gallery: None,
        gallery_data: None,
        media_metadata: None,
        ups: 0,
        permalink: "/r/aww/".into(),
        url: "https://example.com".into(),
        post_type: kind,
    }
}

#[test]
fn get_delivers_what_the_filter_lets_through() {
    let posts = vec![
        kind_post("a", PostType::Image),
        kind_post("b", PostType::Video),
        kind_post("c", PostType::Image),
    ];
    assert_eq!(
        handle_get_command(&posts, None),
        GetPlan::Deliver { posts: vec![0, 1, 2] }
    );
    assert_eq!(
        handle_get_command(&posts, Some(PostType::Image)),
        GetPlan::Deliver { posts: vec![0, 2] }
    );
    assert_eq!(
        handle_get_command(&posts, Some(PostType::Gallery)),
        GetPlan::Reply { text: "No posts found".to_string() }
    );
    assert_eq!(
        handle_get_command(&vec![], None),
        GetPlan::Reply { text: "No posts found".to_string() }
    );
}

#[test]
fn reposts_need_a_channel() {
    assert_eq!(
        handle_repost(None, 5, 9, Some("c".to_string())),
        RepostPlan::NotRegistered { reply: "Repost channel not registered".to_string() }
    );
    assert_eq!(
        handle_repost(Some(-100), 5, 9, Some("c".to_string())),
        RepostPlan::Copy { to: -100, from: 5, message_id: 9, caption: "c".to_string() }
    );
    assert_eq!(
        handle_repost(Some(-100), 5, 9, None),
        RepostPlan::Copy { to: -100, from: 5, message_id: 9, caption: String::new() }
    );
    let files = vec!["f1".to_string(), "f2".to_string(), "f3".to_string()];
    assert_eq!(
        handle_repost_gallery(None, files.clone(), None),
        GalleryRepostPlan::NotRegistered { reply: "Repost channel not registered".to_string() }
    );
    assert_eq!(
        handle_repost_gallery(Some(-7), files.clone(), Some("Title".to_string())),
        GalleryRepostPlan::Send {
            to: -7,
            media: vec![
                RepostMedia { file_id: "f1".into(), caption: Some("Title".into()), html: true },
                RepostMedia { file_id: "f2".into(), caption: None, html: false },
                RepostMedia { file_id: "f3".into(), caption: None, html: false },
            ],
        }
    );
    assert_eq!(
        handle_repost_gallery(Some(-7), files, None),
        GalleryRepostPlan::Send {
            to: -7,
            media: vec![
                RepostMedia { file_id: "f1".into(), caption: None, html: true },
                RepostMedia { file_id: "f2".into(), caption: None, html: false },
                RepostMedia { file_id: "f3".into(), caption: None, html: false },
            ],
        }
    );
    assert_eq!(
        handle_repost_gallery(Some(-7), vec![], Some("Title".to_string())),
        GalleryRepostPlan::Send { to: -7, media: vec![] }
    );
}

#[test]
fn buttons_say_what_to_repost() {
    let single = ButtonCallbackData { post_id: "abc".into(), copy_caption: true, is_gallery: false };
    assert_eq!(
        callback_handler(&single, 10, None),
        CallbackPlan::Single { post_id: "abc".into(), message_id: 10, with_title: true }
    );
    assert_eq!(
        callback_handler(&single, 10, Some(4)),
        CallbackPlan::Single { post_id: "abc".into(), message_id: 4, with_title: true }
    );
    let gallery = ButtonCallbackData { post_id: "g".into(), copy_caption: false, is_gallery: true };
    assert_eq!(
        callback_handler(&gallery, 10, Some(4)),
        CallbackPlan::Gallery { post_id: "g".into(), with_title: false }
    );
}
