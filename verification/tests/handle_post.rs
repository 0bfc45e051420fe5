use tgreddit::handle_post::{
    gallery_follow_up, handle_new_gallery_post, download_gallery, handle_new_image_post, is_gif, is_gif_extension,
    largest, handle_new_link_post, handle_new_post, handle_video_link, route, handle_new_self_post, stored_file,
    handle_new_video_post, DeliveryError, Download, FileMeta, GallerySource, GroupMedia, PostStep, Route, SentMedia,
    Transport,
};
use tgreddit::reddit::{GalleryDataItem, MediaMetadata, Post, PostType};
use tgreddit::types::Video;

fn gallery_post() -> Post {
    Post {
        id: "gal1".into(),
        created: 1654581100,
        post_hint: None,
        subreddit: "pics".into(),
        title: "Three pictures".into(),
        is_self: false,
        is_video: false,
        is_gallery: Some(true),
        gallery_data: Some(vec![
            GalleryDataItem { media_id: "m1".into(), id: 1 },
            GalleryDataItem { media_id: "m2".into(), id: 2 },
            GalleryDataItem { media_id: "m3".into(), id: 3 },
        ]),
        media_metadata: Some(vec![
            MediaMetadata {
                media_id: "m3".into(),
                x: 10,
                y: 20,
                url: Some("https://preview.redd.it/m3.jpg?width=10&amp;s=abc".into()),
            },
            MediaMetadata {
                media_id: "m1".into(),
                x: 10,
                y: 20,
                url: Some("https://preview.redd.it/m1.jpg?a=1&amp;b=2&amp;c=3".into()),
            },
            MediaMetadata {
                media_id: "m2".into(),
                x: 10,
                y: 20,
                url: Some("https://preview.redd.it/m2.gif".into()),
            },
        ]),
        ups: 1,
        permalink: "/r/pics/comments/gal1/three_pictures/".into(),
        url: "https://www.reddit.com/gallery/gal1".into(),
        post_type: PostType::Gallery,
    }
}

fn download(media_id: &str, path: &str) -> Download {
    Download { media_id: media_id.into(), path: path.into(), animated: is_gif(path) }
}

const CAPTION: &str = "Three pictures\n<a href=\"https://www.reddit.com/r/pics\">/r/pics</a> [<a href=\"https://www.reddit.com/r/pics/comments/gal1/three_pictures/\">comments</a>, <a href=\"https://old.reddit.com/r/pics/comments/gal1/three_pictures/\">old</a>]";

#[test]
fn gif_is_told_by_the_extension() {
    assert!(is_gif("/tmp/a/b.gif"));
    assert!(!is_gif("/tmp/a/b.GIF"));
    assert!(!is_gif("/tmp/a/b.jpg"));
    assert!(!is_gif("/tmp/a/gif"));
    assert!(!is_gif("/tmp/a/.gif"));
    assert!(!is_gif("/tmp/a.gif/b"));
    assert!(is_gif("b.tar.gif"));
    assert!(!is_gif(""));
    assert!(is_gif_extension(Some("gif")));
    assert!(!is_gif_extension(Some("gifv")));
    assert!(!is_gif_extension(None));
}

#[test]
fn every_kind_has_a_route() {
    assert_eq!(route(PostType::Image), Route::Image);
    assert_eq!(route(PostType::Video), Route::Video);
    assert_eq!(route(PostType::Link), Route::Link);
    assert_eq!(route(PostType::SelfText), Route::SelfText);
    assert_eq!(route(PostType::Gallery), Route::Gallery);
    assert_eq!(route(PostType::Unknown), Route::Link);
}

#[test]
fn a_post_without_hint_is_fetched_again() {
    let mut post = gallery_post();
    assert_eq!(handle_new_post(&post, false), PostStep::FetchDetail);
    // once fetched on its own, the post is delivered with or without a hint
    assert_eq!(handle_new_post(&post, true), PostStep::Deliver(Route::Gallery));
    post.post_hint = Some("image".into());
    assert_eq!(handle_new_post(&post, false), PostStep::Deliver(Route::Gallery));
    post.post_type = PostType::Unknown;
    assert_eq!(handle_new_post(&post, false), PostStep::Deliver(Route::Link));
    post.post_hint = None;
    assert_eq!(handle_new_post(&post, true), PostStep::Deliver(Route::Link));
}

#[test]
fn gallery_sources_unescape_ampersands() {
    let post = gallery_post();
    assert_eq!(
        download_gallery(&post),
        Ok(vec![
            GallerySource {
                media_id: "m3".into(),
                url: "https://preview.redd.it/m3.jpg?width=10&s=abc".into()
            },
            GallerySource {
                media_id: "m1".into(),
                url: "https://preview.redd.it/m1.jpg?a=1&b=2&c=3".into()
            },
            GallerySource {
                media_id: "m2".into(),
                url: "https://preview.redd.it/m2.gif".into()
            },
        ])
    );
}

#[test]
fn gallery_without_its_data_is_refused() {
    let mut post = gallery_post();
    post.media_metadata = None;
    assert_eq!(download_gallery(&post), Err(DeliveryError::MissingGalleryData));
    let mut post = gallery_post();
    post.gallery_data = None;
    assert_eq!(download_gallery(&post), Err(DeliveryError::MissingGalleryData));
    assert_eq!(
        handle_new_gallery_post(&post, None, &vec![]),
        Err(DeliveryError::MissingGalleryData)
    );
    let mut post = gallery_post();
    post.media_metadata.as_mut().unwrap()[1].url = None;
    assert_eq!(download_gallery(&post), Err(DeliveryError::MissingMediaSource));
    let mut post = gallery_post();
    post.permalink = ":x".into();
    assert_eq!(
        handle_new_gallery_post(&post, None, &vec![]),
        Err(DeliveryError::BadPermalink)
    );
    assert_eq!(handle_new_link_post(&post, None), Err(DeliveryError::BadPermalink));
    assert_eq!(handle_new_self_post(&post, None), Err(DeliveryError::BadPermalink));
    assert_eq!(
        handle_new_image_post(&post, None, "/tmp/a.jpg", false),
        Err(DeliveryError::BadPermalink)
    );
}

#[test]
fn gallery_with_one_failed_download_keeps_the_others_in_order() {
    let post = gallery_post();
    // the download of the second medium failed
    let downloads = vec![
        download("m3", "/tmp/3/m3.jpg"),
        download("m1", "/tmp/1/m1.jpg"),
    ];
    assert_eq!(
        handle_new_gallery_post(&post, None, &downloads),
        Ok(vec![
            GroupMedia {
                transport: Transport::Photo,
                path: "/tmp/1/m1.jpg".into(),
                caption: Some(CAPTION.to_string()),
            },
            GroupMedia {
                transport: Transport::Photo,
                path: "/tmp/3/m3.jpg".into(),
                caption: None,
            },
        ])
    );
}

#[test]
fn gallery_caption_moves_to_the_first_survivor() {
    let post = gallery_post();
    let downloads = vec![
        download("m2", "/tmp/2/m2.gif"),
        download("m3", "/tmp/3/m3.jpg"),
        download("m2", "/tmp/2/again.jpg"),
        download("zz", "/tmp/z/zz.jpg"),
    ];
    assert_eq!(
        handle_new_gallery_post(&post, None, &downloads),
        Ok(vec![
            GroupMedia {
                transport: Transport::Video,
                path: "/tmp/2/m2.gif".into(),
                caption: Some(CAPTION.to_string()),
            },
            GroupMedia {
                transport: Transport::Photo,
                path: "/tmp/3/m3.jpg".into(),
                caption: None,
            },
        ])
    );
    assert_eq!(handle_new_gallery_post(&post, None, &vec![]), Ok(vec![]));
}

#[test]
fn gallery_is_followed_by_its_buttons() {
    let post = gallery_post();
    let follow_up = gallery_follow_up(&post);
    assert_eq!(follow_up.html, "To repost:");
    assert_eq!(follow_up.buttons.len(), 2);
    assert!(follow_up.buttons.iter().all(|b| b.data.is_gallery && b.data.post_id == "gal1"));
    assert!(follow_up.buttons[0].data.copy_caption);
    assert!(!follow_up.buttons[1].data.copy_caption);
}

#[test]
fn images_travel_by_what_the_file_is() {
    let mut post = gallery_post();
    post.post_type = PostType::Image;
    let photo = handle_new_image_post(&post, None, "/tmp/x/pic.jpg", is_gif("/tmp/x/pic.jpg")).unwrap();
    assert_eq!(photo.transport, Transport::Photo);
    assert_eq!(photo.path, "/tmp/x/pic.jpg");
    assert_eq!(photo.caption, CAPTION);
    assert_eq!(photo.size, None);
    assert_eq!(photo.buttons.len(), 2);
    assert!(!photo.buttons[0].data.is_gallery);
    let animation = handle_new_image_post(
        &post,
        Some("https://teddit.net"),
        "/tmp/x/pic.gif",
        is_gif("/tmp/x/pic.gif"),
    )
    .unwrap();
    assert_eq!(animation.transport, Transport::Video);
    assert_eq!(
        animation.caption,
        "Three pictures\n<a href=\"https://teddit.net/r/pics\">/r/pics</a> [<a href=\"https://teddit.net/r/pics/comments/gal1/three_pictures/\">comments</a>]"
    );
}

#[test]
fn the_flag_decides_the_transport() {
    let post = gallery_post();
    // the flag is taken as given, whatever the path looks like
    let as_video = handle_new_image_post(&post, None, "/tmp/x/pic.jpg", true).unwrap();
    assert_eq!(as_video.transport, Transport::Video);
    let as_photo = handle_new_image_post(&post, None, "/tmp/x/pic.gif", false).unwrap();
    assert_eq!(as_photo.transport, Transport::Photo);
    let downloads = vec![Download { media_id: "m1".into(), path: "/tmp/m1.jpg".into(), animated: true }];
    let group = handle_new_gallery_post(&post, None, &downloads).unwrap();
    assert_eq!(group.len(), 1);
    assert_eq!(group[0].transport, Transport::Video);
}

#[test]
fn videos_carry_their_size() {
    let post = gallery_post();
    let video = Video {
        path: "/tmp/v/clip_[id9]_640x360.mp4".into(),
        url: "https://v.redd.it/id9".into(),
        id: "id9".into(),
        title: "clip".into(),
        width: 640,
        height: 360,
    };
    let message = handle_new_video_post(&post, None, &video).unwrap();
    assert_eq!(message.transport, Transport::Video);
    assert_eq!(message.path, "/tmp/v/clip_[id9]_640x360.mp4");
    assert_eq!(message.caption, CAPTION);
    assert_eq!(message.size, Some((640, 360)));
    assert_eq!(message.buttons[0].data.post_id, "gal1");

    let from_link = handle_video_link(&video);
    assert_eq!(from_link.transport, Transport::Video);
    assert_eq!(from_link.size, Some((640, 360)));
    assert_eq!(
        from_link.caption,
        "clip\n<a href=\"https://v.redd.it/id9\">video link</a>"
    );
    assert_eq!(from_link.buttons[0].data.post_id, "id9");
}

#[test]
fn text_routes_differ_in_the_first_line() {
    let mut post = gallery_post();
    post.url = "https://example.com/story".into();
    let link = handle_new_link_post(&post, None).unwrap();
    assert!(link
        .html
        .starts_with("<a href=\"https://example.com/story\">Three pictures</a>\n"));
    let own = handle_new_self_post(&post, None).unwrap();
    assert_eq!(own.html, CAPTION);
    assert_eq!(link.buttons, own.buttons);
}

fn file(id: &str, size: u32) -> FileMeta {
    FileMeta { id: id.into(), unique_id: format!("u{id}"), size }
}

#[test]
fn the_largest_photo_is_kept() {
    let sizes = vec![file("s", 10), file("l", 900), file("m", 300)];
    assert_eq!(largest(&sizes), 1);
    let sent = SentMedia { video: None, photo: Some(sizes) };
    assert_eq!(stored_file(&sent), Some(&file("l", 900)));
    // among equals the last one
    let sizes = vec![file("a", 5), file("b", 5), file("c", 1)];
    assert_eq!(largest(&sizes), 1);
    assert_eq!(largest(&vec![file("only", 0)]), 0);
}

#[test]
fn a_video_is_kept_before_any_photo() {
    let sent = SentMedia {
        video: Some(file("v", 1)),
        photo: Some(vec![file("p", 100)]),
    };
    assert_eq!(stored_file(&sent), Some(&file("v", 1)));
    assert_eq!(stored_file(&SentMedia { video: None, photo: None }), None);
    assert_eq!(stored_file(&SentMedia { video: None, photo: Some(vec![]) }), None);
}
