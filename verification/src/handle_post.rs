//! How a post is delivered: which route its kind takes, what is sent on each
//! route, how a gallery is put together from what could be downloaded, and
//! which file of a sent message is kept for reposting.

use crate::messages::{
    buttons_view, format_link_video_caption_html, format_repost_buttons,
    format_repost_buttons_gallery, link_message_of, link_video_caption_html, media_caption_of,
    repost_buttons, try_format_link_message_html, try_format_media_caption_html, RepostButton,
};
use crate::reddit::{opt_string_view, opt_view, GalleryDataItem, MediaMetadata, Post, PostType};
use crate::text::{replace, replaced, same_text};
use crate::types::Video;
use vstd::prelude::*;

verus! {

/// `Path::extension` of std, on a path given as text. Nothing is claimed of
/// its outcome but that it is the one named `path_extension`.
#[verifier::external_body]
fn extension(path: &str) -> (ext: Option<String>)
    ensures
        opt_string_view(ext) == path_extension(path@),
{
    std::path::Path::new(path).extension().map(|e| e.to_string_lossy().into_owned())
}

/// Whether an extension is that of an animated image.
pub fn is_gif_extension(ext: Option<&str>) -> (gif: bool)
    ensures
        gif == (opt_view(ext) == Some("gif"@)),
{
    match ext {
        Some(e) => same_text(e, "gif"),
        None => false,
    }
}

/// Whether the file at `path` is an animated image, by its extension.
pub fn is_gif(path: &str) -> (gif: bool)
    ensures
        gif == gif_path(path@),
{
    match extension(path) {
        Some(e) => is_gif_extension(Some(e.as_str())),
        None => false,
    }
}

/// The extension of the file that a path leads to, as std's
/// `Path::extension` finds it: what follows the last dot of the file's name,
/// without the dot. `None` where the path has no file name, where the name
/// holds no dot, and where the name's only dot is its first character. std
/// reads a path by the syntax of the platform that the crate is built for; on
/// one build the same text always has the same extension.
pub uninterp spec fn path_extension(path: Seq<char>) -> Option<Seq<char>>;

/// Whether the file at `path` is an animated image: its extension is `gif`,
/// in lower case.
pub open spec fn gif_path(path: Seq<char>) -> bool {
    path_extension(path) == Some("gif"@)
}

/// The ways in which a post reaches the chat.
#[derive(Debug, Clone, Copy, PartialEq, Eq, Structural)]
pub enum Route {
    Image,
    Video,
    Link,
    SelfText,
    Gallery,
}

/// Each kind has its own route; a post of unknown kind goes the way of a link.
pub open spec fn route_of(kind: PostType) -> Route {
    match kind {
        PostType::Image => Route::Image,
        PostType::Video => Route::Video,
        PostType::Link => Route::Link,
        PostType::SelfText => Route::SelfText,
        PostType::Gallery => Route::Gallery,
        PostType::Unknown => Route::Link,
    }
}

/// The route that a post of the given kind takes.
pub fn route(kind: PostType) -> (r: Route)
    ensures
        r == route_of(kind),
{
    match kind {
        PostType::Image => Route::Image,
        PostType::Video => Route::Video,
        PostType::Link => Route::Link,
        PostType::SelfText => Route::SelfText,
        PostType::Gallery => Route::Gallery,
        // Some subreddits' posts carry nothing that tells their kind; they are
        // delivered like a link.
        PostType::Unknown => Route::Link,
    }
}

/// What handling a post asks for next.
#[derive(Debug, Clone, Copy, PartialEq, Eq, Structural)]
pub enum PostStep {
    /// Fetch the post again on its own, then handle what came back.
    FetchDetail,
    /// Deliver the post on this route.
    Deliver(Route),
}

/// A post that a listing brought without a type hint is fetched again on its
/// own, once: a listing sometimes leaves the hint out that a single fetch
/// brings. Every other post, and every post that was fetched on its own, hint
/// or no hint, is delivered on the route of its kind.
pub open spec fn post_step_of(post: Post, detailed: bool) -> PostStep {
    if !detailed && post.post_hint is None {
        PostStep::FetchDetail
    } else {
        PostStep::Deliver(route_of(post.post_type))
    }
}

/// Decides what handling a post asks for next. `detailed` tells whether the
/// post was fetched on its own already.
pub fn handle_new_post(post: &Post, detailed: bool) -> (next: PostStep)
    ensures
        next == post_step_of(*post, detailed),
{
    if !detailed && post.post_hint.is_none() {
        PostStep::FetchDetail
    } else {
        PostStep::Deliver(route(post.post_type))
    }
}

/// Why a delivery could not be laid out.
#[derive(Debug, Clone, Copy, PartialEq, Eq, Structural)]
pub enum DeliveryError {
    /// A gallery post came without its listing or without its media.
    MissingGalleryData,
    /// A medium of a gallery has no source image.
    MissingMediaSource,
    /// The post's permalink gives no address to link to.
    BadPermalink,
}

/// How a medium is handed to the chat.
#[derive(Debug, Clone, Copy, PartialEq, Eq, Structural)]
pub enum Transport {
    Photo,
    Video,
}

/// The transport for a downloaded image: an animated one travels as a video.
pub open spec fn transport_of(animated: bool) -> Transport {
    if animated {
        Transport::Video
    } else {
        Transport::Photo
    }
}

/// A text message with its buttons.
#[derive(Debug, Clone, PartialEq, Eq)]
pub struct TextMessage {
    pub html: String,
    pub buttons: Vec<RepostButton>,
}

/// One medium sent on its own, with caption and buttons. `size` holds width
/// and height where they are known.
#[derive(Debug, Clone, PartialEq, Eq)]
pub struct MediaMessage {
    pub transport: Transport,
    pub path: String,
    pub caption: String,
    pub size: Option<(u16, u16)>,
    pub buttons: Vec<RepostButton>,
}

/// The message for a link post: `Err` exactly where the text cannot be had.
pub fn handle_new_link_post(post: &Post, links_base_url: Option<&str>) -> (r: Result<TextMessage, DeliveryError>)
    ensures
        match r {
            Ok(m) => Some(m.html@) == link_message_of(*post, opt_view(links_base_url))
                && buttons_view(m.buttons@) == repost_buttons(post.id@, false),
            Err(e) => e == DeliveryError::BadPermalink && link_message_of(
                *post,
                opt_view(links_base_url),
            ) is None,
        },
{
    match try_format_link_message_html(post, links_base_url) {
        Some(html) => Ok(TextMessage { html, buttons: format_repost_buttons(post) }),
        None => Err(DeliveryError::BadPermalink),
    }
}

/// The message for a self post: title and meta line, as under a medium.
pub fn handle_new_self_post(post: &Post, links_base_url: Option<&str>) -> (r: Result<TextMessage, DeliveryError>)
    ensures
        match r {
            Ok(m) => Some(m.html@) == media_caption_of(*post, opt_view(links_base_url))
                && buttons_view(m.buttons@) == repost_buttons(post.id@, false),
            Err(e) => e == DeliveryError::BadPermalink && media_caption_of(
                *post,
                opt_view(links_base_url),
            ) is None,
        },
{
    match try_format_media_caption_html(post, links_base_url) {
        Some(html) => Ok(TextMessage { html, buttons: format_repost_buttons(post) }),
        None => Err(DeliveryError::BadPermalink),
    }
}

/// The message for an image post whose image lies at `path`. What the file
/// is decides the transport, not what the post says: `animated` tells whether
/// the file is an animated image (see `is_gif`).
pub fn handle_new_image_post(post: &Post, links_base_url: Option<&str>, path: &str, animated: bool) -> (r:
    Result<MediaMessage, DeliveryError>)
    ensures
        match r {
            Ok(m) => {
                &&& m.transport == transport_of(animated)
                &&& m.path@ == path@
                &&& Some(m.caption@) == media_caption_of(*post, opt_view(links_base_url))
                &&& m.size is None
                &&& buttons_view(m.buttons@) == repost_buttons(post.id@, false)
            },
            Err(e) => e == DeliveryError::BadPermalink && media_caption_of(
                *post,
                opt_view(links_base_url),
            ) is None,
        },
{
    let caption = match try_format_media_caption_html(post, links_base_url) {
        Some(c) => c,
        None => {
            return Err(DeliveryError::BadPermalink);
        },
    };
    let transport = if animated {
        Transport::Video
    } else {
        Transport::Photo
    };
    Ok(
        MediaMessage {
            transport,
            path: path.to_owned(),
            caption,
            size: None,
            buttons: format_repost_buttons(post),
        },
    )
}

/// The message for a video post whose video was downloaded: the file goes out
/// as a video of the size that its name told, under the post's caption.
pub fn handle_new_video_post(post: &Post, links_base_url: Option<&str>, video: &Video) -> (r: Result<
    MediaMessage,
    DeliveryError,
>)
    ensures
        match r {
            Ok(m) => {
                &&& m.transport == Transport::Video
                &&& m.path@ == video.path@
                &&& Some(m.caption@) == media_caption_of(*post, opt_view(links_base_url))
                &&& m.size == Some((video.width, video.height))
                &&& buttons_view(m.buttons@) == repost_buttons(post.id@, false)
            },
            Err(e) => e == DeliveryError::BadPermalink && media_caption_of(
                *post,
                opt_view(links_base_url),
            ) is None,
        },
{
    let caption = match try_format_media_caption_html(post, links_base_url) {
        Some(c) => c,
        None => {
            return Err(DeliveryError::BadPermalink);
        },
    };
    Ok(
        MediaMessage {
            transport: Transport::Video,
            path: video.path.clone(),
            caption,
            size: Some((video.width, video.height)),
            buttons: format_repost_buttons(post),
        },
    )
}

/// The message for a video fetched from a plain link: captioned with its own
/// title and the link, and with buttons that carry the video's id.
pub fn handle_video_link(video: &Video) -> (m: MediaMessage)
    ensures
        m.transport == Transport::Video,
        m.path@ == video.path@,
        m.caption@ == link_video_caption_html(*video),
        m.size == Some((video.width, video.height)),
        buttons_view(m.buttons@) == repost_buttons(video.id@, false),
{
    MediaMessage {
        transport: Transport::Video,
        path: video.path.clone(),
        caption: format_link_video_caption_html(video),
        size: Some((video.width, video.height)),
        buttons: format_repost_buttons(video),
    }
}

/// One image of a gallery to download.
#[derive(Debug, Clone, PartialEq, Eq)]
pub struct GallerySource {
    pub media_id: String,
    pub url: String,
}

/// One image of a gallery that was downloaded. `animated` tells whether the
/// file is an animated image (see `is_gif`).
#[derive(Debug, Clone, PartialEq, Eq)]
pub struct Download {
    pub media_id: String,
    pub path: String,
    pub animated: bool,
}

/// One medium of a group. Only the first of a group carries a caption.
#[derive(Debug, Clone, PartialEq, Eq)]
pub struct GroupMedia {
    pub transport: Transport,
    pub path: String,
    pub caption: Option<String>,
}

/// The address to download one medium from: the source's address with the
/// escaped ampersands of the feed's JSON put right.
pub open spec fn source_url(url: Seq<char>) -> Seq<char> {
    replaced(url, "&amp;"@, "&"@)
}

/// The images to download for a gallery, one for each medium, in the order
/// in which the post holds them. `None` where a medium has no source image.
pub open spec fn sources_of(media: Seq<MediaMetadata>) -> Option<Seq<(Seq<char>, Seq<char>)>>
    decreases media.len(),
{
    if media.len() == 0 {
        Some(Seq::empty())
    } else {
        match (sources_of(media.drop_last()), media.last().url) {
            (Some(before), Some(url)) => Some(before.push((media.last().media_id@, source_url(url@)))),
            _ => None,
        }
    }
}

/// What a gallery post asks to download, or why it cannot be delivered.
pub open spec fn gallery_sources_of(post: Post) -> Result<Seq<(Seq<char>, Seq<char>)>, DeliveryError> {
    match (post.gallery_data, post.media_metadata) {
        (Some(_), Some(media)) => match sources_of(media@) {
            Some(s) => Ok(s),
            None => Err(DeliveryError::MissingMediaSource),
        },
        _ => Err(DeliveryError::MissingGalleryData),
    }
}

/// Sources as plain values.
pub open spec fn sources_view(sources: Seq<GallerySource>) -> Seq<(Seq<char>, Seq<char>)> {
    sources.map_values(|s: GallerySource| (s.media_id@, s.url@))
}

/// Lists what to download for a gallery post.
pub fn download_gallery(post: &Post) -> (r: Result<Vec<GallerySource>, DeliveryError>)
    ensures
        match r {
            Ok(sources) => Ok(sources_view(sources@)),
            Err(e) => Err(e),
        } == gallery_sources_of(*post),
{
    if post.gallery_data.is_none() {
        return Err(DeliveryError::MissingGalleryData);
    }
    let media = match &post.media_metadata {
        Some(media) => media,
        None => {
            return Err(DeliveryError::MissingGalleryData);
        },
    };
    let mut sources: Vec<GallerySource> = Vec::new();
    let mut i: usize = 0;
    proof {
        assert(media@.take(0) =~= Seq::<MediaMetadata>::empty());
    }
    while i < media.len()
        invariant
            i <= media.len(),
            post.gallery_data is Some,
            post.media_metadata == Some(*media),
            sources_of(media@.take(i as int)) == Some(sources_view(sources@)),
        decreases media.len() - i,
    {
        proof {
            assert(media@.take(i + 1).drop_last() =~= media@.take(i as int));
            assert(media@.take(i + 1).last() == media@[i as int]);
        }
        match &media[i].url {
            Some(url) => {
                let ghost before = sources_view(sources@);
                sources.push(
                    GallerySource {
                        media_id: media[i].media_id.clone(),
                        url: replace(url.as_str(), "&amp;", "&"),
                    },
                );
                proof {
                    assert(sources_view(sources@) =~= before.push(
                        (media@[i as int].media_id@, source_url(url@)),
                    ));
                }
            },
            None => {
                proof {
                    sources_need_every_url(media@, i as int);
                }
                return Err(DeliveryError::MissingMediaSource);
            },
        }
        i += 1;
    }
    proof {
        assert(media@.take(media.len() as int) =~= media@);
    }
    Ok(sources)
}

/// One medium without a source image leaves the whole gallery without sources.
proof fn sources_need_every_url(media: Seq<MediaMetadata>, at: int)
    requires
        0 <= at < media.len(),
        media[at].url is None,
    ensures
        sources_of(media) is None,
    decreases media.len(),
{
    if at < media.len() - 1 {
        sources_need_every_url(media.drop_last(), at);
    }
}

/// Downloads as plain values: the medium's id, the file's path, and whether
/// the file is an animated image.
pub open spec fn downloads_view(downloads: Seq<Download>) -> Seq<(Seq<char>, Seq<char>, bool)> {
    downloads.map_values(|d: Download| (d.media_id@, d.path@, d.animated))
}

/// The file that was downloaded for a medium: the first download under its
/// id, as its path and whether it is animated.
pub open spec fn downloaded(downloads: Seq<(Seq<char>, Seq<char>, bool)>, media_id: Seq<char>) -> Option<
    (Seq<char>, bool),
>
    decreases downloads.len(),
{
    if downloads.len() == 0 {
        None
    } else if downloads[0].0 == media_id {
        Some((downloads[0].1, downloads[0].2))
    } else {
        downloaded(downloads.skip(1), media_id)
    }
}

/// The files of a gallery that are there to send, in the order of the
/// gallery's listing: a listed medium without a download is left out.
pub open spec fn surviving(items: Seq<GalleryDataItem>, downloads: Seq<(Seq<char>, Seq<char>, bool)>) -> Seq<
    (Seq<char>, bool),
>
    decreases items.len(),
{
    if items.len() == 0 {
        Seq::empty()
    } else {
        let before = surviving(items.drop_last(), downloads);
        match downloaded(downloads, items.last().media_id@) {
            Some(file) => before.push(file),
            None => before,
        }
    }
}

/// A group of media as plain values.
pub open spec fn group_view(media: Seq<GroupMedia>) -> Seq<(Transport, Seq<char>, Option<Seq<char>>)> {
    media.map_values(|m: GroupMedia| (m.transport, m.path@, opt_string_view(m.caption)))
}

/// The group that is sent for the given files: each travels by what it is,
/// and the first carries the caption.
pub open spec fn group_of(files: Seq<(Seq<char>, bool)>, caption: Seq<char>) -> Seq<
    (Transport, Seq<char>, Option<Seq<char>>),
> {
    Seq::new(
        files.len(),
        |i: int|
            (
                transport_of(files[i].1),
                files[i].0,
                if i == 0 {
                    Some(caption)
                } else {
                    None
                },
            ),
    )
}

/// The group that is sent for a gallery post, given what was downloaded, or
/// why there is none.
pub open spec fn gallery_media_of(
    post: Post,
    base_url: Option<Seq<char>>,
    downloads: Seq<(Seq<char>, Seq<char>, bool)>,
) -> Result<Seq<(Transport, Seq<char>, Option<Seq<char>>)>, DeliveryError> {
    match post.gallery_data {
        None => Err(DeliveryError::MissingGalleryData),
        Some(items) => match media_caption_of(post, base_url) {
            None => Err(DeliveryError::BadPermalink),
            Some(caption) => Ok(group_of(surviving(items@, downloads), caption)),
        },
    }
}

fn find_download<'a>(downloads: &'a Vec<Download>, media_id: &str) -> (file: Option<&'a Download>)
    ensures
        match file {
            Some(d) => Some((d.path@, d.animated)),
            None => None,
        } == downloaded(downloads_view(downloads@), media_id@),
{
    let mut i: usize = 0;
    let ghost all = downloads_view(downloads@);
    proof {
        assert(all.skip(0) =~= all);
    }
    while i < downloads.len()
        invariant
            i <= downloads.len(),
            all == downloads_view(downloads@),
            downloaded(all, media_id@) == downloaded(all.skip(i as int), media_id@),
        decreases downloads.len() - i,
    {
        proof {
            assert(all.skip(i as int)[0] == all[i as int]);
            assert(all.skip(i as int).skip(1) =~= all.skip(i + 1));
        }
        if same_text(downloads[i].media_id.as_str(), media_id) {
            return Some(&downloads[i]);
        }
        i += 1;
    }
    None
}

/// Puts the group of a gallery post together from the files that could be
/// downloaded. The gallery's listing gives the order; a listed medium whose
/// download is missing is left out, and the first medium that is there
/// carries the caption.
pub fn handle_new_gallery_post(post: &Post, links_base_url: Option<&str>, downloads: &Vec<Download>) -> (r: Result<
    Vec<GroupMedia>,
    DeliveryError,
>)
    ensures
        match r {
            Ok(media) => Ok(group_view(media@)),
            Err(e) => Err(e),
        } == gallery_media_of(*post, opt_view(links_base_url), downloads_view(downloads@)),
{
    let items = match &post.gallery_data {
        Some(items) => items,
        None => {
            return Err(DeliveryError::MissingGalleryData);
        },
    };
    let caption = match try_format_media_caption_html(post, links_base_url) {
        Some(c) => c,
        None => {
            return Err(DeliveryError::BadPermalink);
        },
    };
    let mut media: Vec<GroupMedia> = Vec::new();
    let mut i: usize = 0;
    let ghost all = downloads_view(downloads@);
    proof {
        assert(items@.take(0) =~= Seq::<GalleryDataItem>::empty());
        assert(group_view(media@) =~= group_of(surviving(items@.take(0), all), caption@));
    }
    while i < items.len()
        invariant
            i <= items.len(),
            all == downloads_view(downloads@),
            group_view(media@) == group_of(surviving(items@.take(i as int), all), caption@),
        decreases items.len() - i,
    {
        let ghost before = surviving(items@.take(i as int), all);
        proof {
            assert(items@.take(i + 1).drop_last() =~= items@.take(i as int));
            assert(items@.take(i + 1).last() == items@[i as int]);
            assert(group_view(media@).len() == media@.len());
            assert(media@.len() == before.len());
        }
        match find_download(downloads, items[i].media_id.as_str()) {
            Some(file) => {
                let transport = if file.animated {
                    Transport::Video
                } else {
                    Transport::Photo
                };
                let first = media.len() == 0;
                let ghost old_media = group_view(media@);
                media.push(
                    GroupMedia {
                        transport,
                        path: file.path.clone(),
                        caption: if first {
                            Some(caption.clone())
                        } else {
                            None
                        },
                    },
                );
                proof {
                    let now = before.push((file.path@, file.animated));
                    assert(group_view(media@).len() == now.len());
                    assert forall|k: int| 0 <= k < now.len() implies group_view(media@)[k] == group_of(
                        now,
                        caption@,
                    )[k] by {
                        if k < before.len() {
                            assert(group_view(media@)[k] == old_media[k]);
                            assert(now[k] == before[k]);
                        }
                    }
                    assert(group_view(media@) =~= group_of(now, caption@));
                }
            },
            None => {},
        }
        i += 1;
    }
    proof {
        assert(items@.take(items.len() as int) =~= items@);
    }
    Ok(media)
}

/// The message that follows a gallery: its buttons cannot hang under the
/// group itself.
pub fn gallery_follow_up(post: &Post) -> (m: TextMessage)
    ensures
        m.html@ == "To repost:"@,
        buttons_view(m.buttons@) == repost_buttons(post.id@, true),
{
    TextMessage { html: "To repost:".to_owned(), buttons: format_repost_buttons_gallery(post, true) }
}

/// What the chat service reports of one file.
#[derive(Debug, Clone, PartialEq, Eq)]
pub struct FileMeta {
    pub id: String,
    pub unique_id: String,
    pub size: u32,
}

/// What the chat service reports of one message of a sent group: its video,
/// or the sizes in which its photo is kept.
#[derive(Debug, Clone, PartialEq, Eq)]
pub struct SentMedia {
    pub video: Option<FileMeta>,
    pub photo: Option<Vec<FileMeta>>,
}

/// Whether `at` is the place of the largest file, the last one among equals.
pub open spec fn is_largest(files: Seq<FileMeta>, at: int) -> bool {
    &&& 0 <= at < files.len()
    &&& forall|k: int| 0 <= k < files.len() ==> (#[trigger] files[k]).size <= files[at].size
    &&& forall|k: int| at < k < files.len() ==> (#[trigger] files[k]).size < files[at].size
}

/// The place of the largest file, the last one among equals.
pub fn largest(files: &Vec<FileMeta>) -> (at: usize)
    requires
        files.len() > 0,
    ensures
        is_largest(files@, at as int),
{
    let mut at: usize = 0;
    let mut i: usize = 1;
    while i < files.len()
        invariant
            0 <= at < i <= files.len(),
            is_largest(files@.take(i as int), at as int),
        decreases files.len() - i,
    {
        proof {
            let now = files@.take(i + 1);
            let before = files@.take(i as int);
            assert forall|k: int| 0 <= k < i implies now[k] == before[k] by {}
        }
        if files[i].size >= files[at].size {
            proof {
                let now = files@.take(i + 1);
                let before = files@.take(i as int);
                assert forall|k: int| 0 <= k < now.len() implies (#[trigger] now[k]).size <= now[i as int].size by {
                    if k < i {
                        assert(before[k].size <= before[at as int].size);
                    }
                }
            }
            at = i;
        } else {
            proof {
                let now = files@.take(i + 1);
                let before = files@.take(i as int);
                assert forall|k: int| 0 <= k < now.len() implies (#[trigger] now[k]).size <= now[at as int].size by {
                    if k < i {
                        assert(before[k].size <= before[at as int].size);
                    }
                }
                assert forall|k: int| at < k < now.len() implies (#[trigger] now[k]).size < now[at as int].size by {
                    if k < i {
                        assert(before[k].size < before[at as int].size);
                    }
                }
            }
        }
        i += 1;
    }
    proof {
        assert(files@.take(files.len() as int) =~= files@);
    }
    at
}

/// Whether `file` is the one to keep of a sent message: its video if it has
/// one, else the largest size of its photo.
pub open spec fn is_stored_file(sent: SentMedia, file: Option<FileMeta>) -> bool {
    match sent.video {
        Some(video) => file == Some(video),
        None => match sent.photo {
            Some(sizes) => if sizes.len() > 0 {
                exists|at: int| is_largest(sizes@, at) && file == Some(#[trigger] sizes@[at])
            } else {
                file is None
            },
            None => file is None,
        },
    }
}

/// The file to keep of one sent message, so that it can be sent again
/// without another download. `None` where the message holds neither a video
/// nor a photo.
pub fn stored_file(sent: &SentMedia) -> (file: Option<&FileMeta>)
    ensures
        is_stored_file(
            *sent,
            match file {
                Some(f) => Some(*f),
                None => None,
            },
        ),
{
    match &sent.video {
        Some(video) => Some(video),
        None => match &sent.photo {
            Some(sizes) => {
                if sizes.len() > 0 {
                    let at = largest(sizes);
                    Some(&sizes[at])
                } else {
                    None
                }
            },
            None => None,
        },
    }
}

} // verus!
