//! The video downloader's command line, and what the name of the file that it
//! writes tells about the video.

use crate::pattern::{captures, group, group_text, regex_captures};
use crate::reddit::{opt_string_view, opt_view};
use crate::text::{parse_unsigned, parsed_unsigned};
use crate::types::Video;
use vstd::prelude::*;

verus! {

/// The template by which the downloader names its output: title, id in
/// brackets, width and height, extension. The dimensions are in the name so
/// that the video can be sent with the right aspect ratio.
pub const OUTPUT_TEMPLATE: &'static str = "%(title).200B_[%(id)s]_%(width)sx%(height)s.%(ext)s";

/// The shape of a file name that follows the template.
pub const METADATA_PATTERN: &'static str =
    r"(?P<title>.*)_\[(?P<id>.*)\]_(?P<width>\d+)x(?P<height>\d+)\.";

/// The command line of the downloader for one address, writing below `output`.
pub open spec fn ytdlp_args(output: Seq<char>, url: Seq<char>) -> Seq<Seq<char>> {
    seq![
        "--paths"@,
        output,
        "--output"@,
        OUTPUT_TEMPLATE@,
        "-f"@,
        "bv[height<=1080]+ba/best"@,
        "-S"@,
        "res,ext:mp4:m4a"@,
        "--recode"@,
        "mp4"@,
        "--no-playlist"@,
        url,
    ]
}

/// Lists the arguments with which the downloader is run for one address.
pub fn make_ytdlp_args(output: &str, url: &str) -> (args: Vec<String>)
    ensures
        crate::text::views(args@) == ytdlp_args(output@, url@),
{
    let mut args: Vec<String> = Vec::new();
    args.push("--paths".to_owned());
    args.push(output.to_owned());
    args.push("--output".to_owned());
    args.push(OUTPUT_TEMPLATE.to_owned());
    args.push("-f".to_owned());
    args.push("bv[height<=1080]+ba/best".to_owned());
    args.push("-S".to_owned());
    args.push("res,ext:mp4:m4a".to_owned());
    args.push("--recode".to_owned());
    args.push("mp4".to_owned());
    args.push("--no-playlist".to_owned());
    args.push(url.to_owned());
    proof {
        assert(crate::text::views(args@) =~= ytdlp_args(output@, url@));
    }
    args
}

/// `Path::file_name` of std, on a path given as text. Nothing is claimed of
/// its outcome but that it is the one named `path_file_name`.
#[verifier::external_body]
fn file_name(path: &str) -> (name: Option<String>)
    ensures
        opt_string_view(name) == path_file_name(path@),
{
    std::path::Path::new(path).file_name().map(|n| n.to_string_lossy().into_owned())
}

/// A number of at most sixteen bits written in decimal digits.
pub open spec fn dimension_of(digits: Option<Seq<char>>) -> Option<u16> {
    match digits {
        Some(d) => match parsed_unsigned(d, u16::MAX as nat) {
            Some(n) => Some(n as u16),
            None => None,
        },
        None => None,
    }
}

/// What the groups of a match of `METADATA_PATTERN` tell: title, id, width
/// and height, in the order of the pattern's groups. All four groups must
/// have taken part, and each dimension must be a number that fits sixteen bits.
pub open spec fn metadata_of_groups(groups: Option<Seq<Option<Seq<char>>>>) -> Option<
    (Seq<char>, Seq<char>, u16, u16),
> {
    let title = group_text(groups, 1);
    let id = group_text(groups, 2);
    let width = dimension_of(group_text(groups, 3));
    let height = dimension_of(group_text(groups, 4));
    if title is Some && id is Some && width is Some && height is Some {
        Some((title->0, id->0, width->0, height->0))
    } else {
        None
    }
}

/// What a file's name tells about the video in it: the groups of the leftmost
/// match of `METADATA_PATTERN` in the name.
pub open spec fn metadata_of_file_name(name: Seq<char>) -> Option<(Seq<char>, Seq<char>, u16, u16)> {
    metadata_of_groups(regex_captures(METADATA_PATTERN@, name))
}

/// The view of parsed metadata.
pub open spec fn metadata_view(m: Option<(String, String, u16, u16)>) -> Option<
    (Seq<char>, Seq<char>, u16, u16),
> {
    match m {
        Some(t) => Some((t.0@, t.1@, t.2, t.3)),
        None => None,
    }
}

fn parse_dimension(digits: Option<&str>) -> (n: Option<u16>)
    ensures
        n == dimension_of(opt_view(digits)),
{
    match digits {
        Some(d) => match parse_unsigned(d, 65535) {
            Some(n) => Some(n as u16),
            None => None,
        },
        None => None,
    }
}

/// Reads title, id, width and height out of the groups of a match of
/// `METADATA_PATTERN`.
pub fn metadata_from_groups(groups: &Option<Vec<Option<String>>>) -> (m: Option<
    (String, String, u16, u16),
>)
    ensures
        metadata_view(m) == metadata_of_groups(crate::pattern::groups_view(*groups)),
{
    let id = match group(groups, 2) {
        Some(id) => id,
        None => {
            return None;
        },
    };
    let title = match group(groups, 1) {
        Some(title) => title,
        None => {
            return None;
        },
    };
    let width = match parse_dimension(group(groups, 3)) {
        Some(w) => w,
        None => {
            return None;
        },
    };
    let height = match parse_dimension(group(groups, 4)) {
        Some(h) => h,
        None => {
            return None;
        },
    };
    Some((title.to_owned(), id.to_owned(), width, height))
}

/// Reads title, id, width and height out of a file's name. `None` where the
/// name does not follow the template.
pub fn parse_metadata_from_file_name(name: &str) -> (m: Option<(String, String, u16, u16)>)
    ensures
        metadata_view(m) == metadata_of_file_name(name@),
{
    let groups = captures(METADATA_PATTERN, name);
    metadata_from_groups(&groups)
}

/// Reads title, id, width and height out of the name of the file at `path`.
/// `None` where the path has no final component or the name is of another form.
pub fn parse_metadata_from_path(path: &str) -> (m: Option<(String, String, u16, u16)>)
    ensures
        metadata_view(m) == metadata_of_path(path@),
{
    match file_name(path) {
        Some(name) => parse_metadata_from_file_name(name.as_str()),
        None => None,
    }
}

/// A video as plain values.
pub ghost struct VideoView {
    pub path: Seq<char>,
    pub url: Seq<char>,
    pub id: Seq<char>,
    pub title: Seq<char>,
    pub width: u16,
    pub height: u16,
}

impl View for Video {
    type V = VideoView;

    open spec fn view(&self) -> VideoView {
        VideoView {
            path: self.path@,
            url: self.url@,
            id: self.id@,
            title: self.title@,
            width: self.width,
            height: self.height,
        }
    }
}

/// The view of a video that may be missing.
pub open spec fn video_view(v: Option<Video>) -> Option<VideoView> {
    match v {
        Some(video) => Some(video@),
        None => None,
    }
}

/// The video at `path`, fetched from `url`, of which `metadata` is known.
pub open spec fn video_of(
    path: Seq<char>,
    url: Seq<char>,
    metadata: Option<(Seq<char>, Seq<char>, u16, u16)>,
) -> Option<VideoView> {
    match metadata {
        Some(m) => Some(VideoView { path, url, title: m.0, id: m.1, width: m.2, height: m.3 }),
        None => None,
    }
}

/// Describes the video at `path`, fetched from `url`, from what its file
/// name told.
pub fn video_from_metadata(path: &str, url: &str, metadata: Option<(String, String, u16, u16)>) -> (video:
    Option<Video>)
    ensures
        video_view(video) == video_of(path@, url@, metadata_view(metadata)),
{
    match metadata {
        Some((title, id, width, height)) => Some(
            Video { path: path.to_owned(), url: url.to_owned(), title, id, width, height },
        ),
        None => None,
    }
}

/// Describes the video that the downloader wrote to `path` for the address
/// `url`: it keeps both as they are given and has the title, id, width and
/// height that the file's name tells. `None` where the name tells none.
pub fn video_from_path(path: &str, url: &str) -> (video: Option<Video>)
    ensures
        video_view(video) == video_of(path@, url@, metadata_of_path(path@)),
{
    let metadata = parse_metadata_from_path(path);
    video_from_metadata(path, url, metadata)
}

/// The final component of a path as std's `Path::file_name` finds it: the
/// name of the file or directory that the path leads to, `None` where the
/// path ends in `..` or has no component. std reads a path by the syntax of
/// the platform that the crate is built for; on one build the same text
/// always has the same final component.
pub uninterp spec fn path_file_name(path: Seq<char>) -> Option<Seq<char>>;

/// What a path tells about the video in the file that it leads to: what the
/// file's name tells, and nothing where the path has no final component.
pub open spec fn metadata_of_path(path: Seq<char>) -> Option<(Seq<char>, Seq<char>, u16, u16)> {
    match path_file_name(path) {
        Some(name) => metadata_of_file_name(name),
        None => None,
    }
}

} // verus!
