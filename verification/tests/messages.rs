use tgreddit::messages::{
    escape, format_html_anchor, format_link_message_html, format_link_video_caption_html,
    format_media_caption_html, format_repost_buttons, format_repost_buttons_gallery,
    format_subreddit_link, format_subscription, format_subscription_list, meta_html_with,
    try_format_link_message_html, try_format_media_caption_html,
};
use tgreddit::reddit::{Post, PostType, TopPostsTimePeriod};
use tgreddit::types::{Subscription, Video};

fn sample_post() -> Post {
    Post {
        id: "v6nu75".into(),
        created: 1654581100,
        post_hint: Some("link".into()),
        subreddit: "absoluteunit".into(),
        title: "Tipping a cow to trim its hooves".into(),
        is_self: false,
        is_video: false,
        is_gallery: Some(false),
        gallery_data: None,
        media_metadata: None,
        ups: 469,
        permalink: "/r/absoluteunit/comments/v6nu75/tipping_a_cow_to_trim_its_hooves/".into(),
        url: "https://i.imgur.com/Zt6f5mB.gifv".into(),
        post_type: PostType::Video,
    }
}

#[test]
fn test_format_html_anchor() {
    assert_eq!(
        format_html_anchor("https://example.com", "<hello></world>"),
        r#"<a href="https://example.com">&lt;hello&gt;&lt;/world&gt;</a>"#
    )
}

#[test]
fn test_format_subscription_list() {
    assert_eq!(
        format_subscription_list(&[
            Subscription {
                chat_id: 1,
                subreddit: "foo".to_owned(),
                limit: None,
                time: None,
                filter: None,
            },
            Subscription {
                chat_id: 1,
                subreddit: "bar".to_owned(),
                limit: Some(1),
                time: Some(TopPostsTimePeriod::Week),
                filter: None,
            },
        ]),
        "foo\nbar (time=week, limit=1)"
    )
}

#[test]
fn subscription_list_of_nothing_is_a_notice() {
    assert_eq!(format_subscription_list(&[]), "No subscriptions");
}

#[test]
fn subscription_line_lists_all_overrides_in_order() {
    let sub = Subscription {
        chat_id: -100,
        subreddit: "pics".to_owned(),
        limit: Some(4294967295),
        time: Some(TopPostsTimePeriod::All),
        filter: Some(PostType::SelfText),
    };
    assert_eq!(
        format_subscription(&sub),
        "pics (time=all, limit=4294967295, filter=self_text)"
    );
}

#[test]
fn subscription_line_drops_trailing_whitespace_of_the_name() {
    let sub = Subscription {
        chat_id: 1,
        subreddit: "pics \t".to_owned(),
        limit: None,
        time: None,
        filter: None,
    };
    assert_eq!(format_subscription(&sub), "pics");
}

#[test]
fn escape_replaces_both_brackets_and_nothing_else() {
    assert_eq!(escape("a < b > c & d"), "a &lt; b &gt; c & d");
    assert_eq!(escape(""), "");
    assert_eq!(escape("<<>>"), "&lt;&lt;&gt;&gt;");
}

#[test]
fn subreddit_link_uses_the_base() {
    assert_eq!(
        format_subreddit_link("aww", None),
        r#"<a href="https://www.reddit.com/r/aww">/r/aww</a>"#
    );
    assert_eq!(
        format_subreddit_link("aww", Some("https://teddit.net")),
        r#"<a href="https://teddit.net/r/aww">/r/aww</a>"#
    );
}

#[test]
fn media_caption_has_two_permalinks_on_the_default_base() {
    let post = sample_post();
    let expected = concat_lines(
        "Tipping a cow to trim its hooves",
        r#"<a href="https://www.reddit.com/r/absoluteunit">/r/absoluteunit</a> [<a href="https://www.reddit.com/r/absoluteunit/comments/v6nu75/tipping_a_cow_to_trim_its_hooves/">comments</a>, <a href="https://old.reddit.com/r/absoluteunit/comments/v6nu75/tipping_a_cow_to_trim_its_hooves/">old</a>]"#,
    );
    assert_eq!(format_media_caption_html(&post, None), expected);
    assert_eq!(try_format_media_caption_html(&post, None), Some(expected));
}

fn concat_lines(a: &str, b: &str) -> String {
    format!("{a}\n{b}")
}

#[test]
fn media_caption_has_one_permalink_on_a_custom_base() {
    let post = sample_post();
    let expected = concat_lines(
        "Tipping a cow to trim its hooves",
        r#"<a href="https://libreddit.example/r/absoluteunit">/r/absoluteunit</a> [<a href="https://libreddit.example/r/absoluteunit/comments/v6nu75/tipping_a_cow_to_trim_its_hooves/">comments</a>]"#,
    );
    assert_eq!(
        format_media_caption_html(&post, Some("https://libreddit.example")),
        expected
    );
}

#[test]
fn caption_is_refused_where_the_permalink_gives_no_address() {
    let mut post = sample_post();
    post.permalink = ":no-number/".into();
    assert_eq!(try_format_media_caption_html(&post, None), None);
    assert_eq!(try_format_link_message_html(&post, None), None);
    assert!(try_format_media_caption_html(&post, Some("https://x.example")).is_some());
}

#[test]
fn link_message_anchors_the_title() {
    let mut post = sample_post();
    post.title = "1 < 2".into();
    let expected = concat_lines(
        r#"<a href="https://i.imgur.com/Zt6f5mB.gifv">1 &lt; 2</a>"#,
        r#"<a href="https://www.reddit.com/r/absoluteunit">/r/absoluteunit</a> [<a href="https://www.reddit.com/r/absoluteunit/comments/v6nu75/tipping_a_cow_to_trim_its_hooves/">comments</a>, <a href="https://old.reddit.com/r/absoluteunit/comments/v6nu75/tipping_a_cow_to_trim_its_hooves/">old</a>]"#,
    );
    assert_eq!(format_link_message_html(&post, None), expected);
    assert_eq!(try_format_link_message_html(&post, None), Some(expected));
}

#[test]
fn meta_line_takes_the_old_address_as_given() {
    let post = sample_post();
    assert_eq!(
        meta_html_with(&post, None, "https://old.example/x"),
        r#"<a href="https://www.reddit.com/r/absoluteunit">/r/absoluteunit</a> [<a href="https://www.reddit.com/r/absoluteunit/comments/v6nu75/tipping_a_cow_to_trim_its_hooves/">comments</a>, <a href="https://old.example/x">old</a>]"#
    );
}

#[test]
fn link_video_caption_links_to_the_video() {
    let video = Video {
        path: "/tmp/x/video_[abc]_640x480.mp4".into(),
        url: "https://example.com/watch?v=abc".into(),
        id: "abc".into(),
        title: "A <video>".into(),
        width: 640,
        height: 480,
    };
    assert_eq!(
        format_link_video_caption_html(&video),
        "A <video>\n<a href=\"https://example.com/watch?v=abc\">video link</a>"
    );
}

#[test]
fn repost_buttons_carry_the_post_id() {
    let post = sample_post();
    let row = format_repost_buttons(&post);
    assert_eq!(row.len(), 2);
    assert_eq!(row[0].text, "Post");
    assert_eq!(row[0].data.post_id, "v6nu75");
    assert!(row[0].data.copy_caption);
    assert!(!row[0].data.is_gallery);
    assert_eq!(row[1].text, "Post (no title)");
    assert_eq!(row[1].data.post_id, "v6nu75");
    assert!(!row[1].data.copy_caption);
    assert!(!row[1].data.is_gallery);
    let gallery_row = format_repost_buttons_gallery(&post, true);
    assert!(gallery_row[0].data.is_gallery && gallery_row[1].data.is_gallery);
}

#[test]
fn escape_agrees_with_two_replacements() {
    for text in ["", "<", ">", "<>", "><", "a<b>c", "&lt;", "&lt;<", "<<<>>>", "x > y < z", "&gt;>&"] {
        assert_eq!(escape(text), text.replace('<', "&lt;").replace('>', "&gt;"), "{text:?}");
    }
}
