//! Posts as the feed source reports them, and how they are classified.

pub mod api;

use crate::text::same_text;
use vstd::prelude::*;

verus! {

/// The closed set of media kinds a post can have.
#[derive(Debug, Clone, Copy, PartialEq, Eq, Structural)]
pub enum PostType {
    Image,
    Video,
    Link,
    SelfText,
    Gallery,
    Unknown,
}

/// The recency window of a "top posts" listing.
#[derive(Debug, Clone, Copy, PartialEq, Eq, Structural)]
pub enum TopPostsTimePeriod {
    Hour,
    Day,
    Week,
    Month,
    Year,
    All,
}

impl PostType {
    /// The lower-case name under which a kind is written and read.
    pub open spec fn name(self) -> Seq<char> {
        match self {
            PostType::Image => "image"@,
            PostType::Video => "video"@,
            PostType::Link => "link"@,
            PostType::SelfText => "self_text"@,
            PostType::Gallery => "gallery"@,
            PostType::Unknown => "unknown"@,
        }
    }

    /// The kind that a name stands for, if any. Names are matched exactly.
    pub open spec fn named(s: Seq<char>) -> Option<PostType> {
        if s == "image"@ {
            Some(PostType::Image)
        } else if s == "video"@ {
            Some(PostType::Video)
        } else if s == "link"@ {
            Some(PostType::Link)
        } else if s == "self_text"@ {
            Some(PostType::SelfText)
        } else if s == "gallery"@ {
            Some(PostType::Gallery)
        } else if s == "unknown"@ {
            Some(PostType::Unknown)
        } else {
            None
        }
    }

    /// The name as a string slice.
    pub fn as_str(&self) -> (s: &'static str)
        ensures
            s@ == self.name(),
    {
        match self {
            PostType::Image => "image",
            PostType::Video => "video",
            PostType::Link => "link",
            PostType::SelfText => "self_text",
            PostType::Gallery => "gallery",
            PostType::Unknown => "unknown",
        }
    }

    /// The name as a string.
    pub fn to_string(&self) -> (s: String)
        ensures
            s@ == self.name(),
    {
        self.as_str().to_owned()
    }

    /// Reads a kind from its name; `None` for any other text.
    pub fn from_str(s: &str) -> (kind: Option<PostType>)
        ensures
            kind == PostType::named(s@),
    {
        if same_text(s, "image") {
            Some(PostType::Image)
        } else if same_text(s, "video") {
            Some(PostType::Video)
        } else if same_text(s, "link") {
            Some(PostType::Link)
        } else if same_text(s, "self_text") {
            Some(PostType::SelfText)
        } else if same_text(s, "gallery") {
            Some(PostType::Gallery)
        } else if same_text(s, "unknown") {
            Some(PostType::Unknown)
        } else {
            None
        }
    }

    /// Every kind is read back from its own name.
    pub proof fn name_round_trip(kind: PostType)
        ensures
            PostType::named(kind.name()) == Some(kind),
    {
        reveal_strlit("image");
        reveal_strlit("video");
        reveal_strlit("link");
        reveal_strlit("self_text");
        reveal_strlit("gallery");
        reveal_strlit("unknown");
        assert("image"@.len() == 5 && "video"@.len() == 5 && "link"@.len() == 4);
        assert("self_text"@.len() == 9 && "gallery"@.len() == 7 && "unknown"@.len() == 7);
        assert("image"@[0] != "video"@[0]);
        assert("gallery"@[0] != "unknown"@[0]);
    }
}

impl TopPostsTimePeriod {
    /// The lower-case name under which a window is written and read.
    pub open spec fn name(self) -> Seq<char> {
        match self {
            TopPostsTimePeriod::Hour => "hour"@,
            TopPostsTimePeriod::Day => "day"@,
            TopPostsTimePeriod::Week => "week"@,
            TopPostsTimePeriod::Month => "month"@,
            TopPostsTimePeriod::Year => "year"@,
            TopPostsTimePeriod::All => "all"@,
        }
    }

    /// The window that a name stands for, if any. Names are matched exactly.
    pub open spec fn named(s: Seq<char>) -> Option<TopPostsTimePeriod> {
        if s == "hour"@ {
            Some(TopPostsTimePeriod::Hour)
        } else if s == "day"@ {
            Some(TopPostsTimePeriod::Day)
        } else if s == "week"@ {
            Some(TopPostsTimePeriod::Week)
        } else if s == "month"@ {
            Some(TopPostsTimePeriod::Month)
        } else if s == "year"@ {
            Some(TopPostsTimePeriod::Year)
        } else if s == "all"@ {
            Some(TopPostsTimePeriod::All)
        } else {
            None
        }
    }

    /// The name as a string slice.
    pub fn as_str(&self) -> (s: &'static str)
        ensures
            s@ == self.name(),
    {
        match self {
            TopPostsTimePeriod::Hour => "hour",
            TopPostsTimePeriod::Day => "day",
            TopPostsTimePeriod::Week => "week",
            TopPostsTimePeriod::Month => "month",
            TopPostsTimePeriod::Year => "year",
            TopPostsTimePeriod::All => "all",
        }
    }

    /// The name as a string.
    pub fn to_string(&self) -> (s: String)
        ensures
            s@ == self.name(),
    {
        self.as_str().to_owned()
    }

    /// Reads a window from its name; `None` for any other text.
    pub fn from_str(s: &str) -> (period: Option<TopPostsTimePeriod>)
        ensures
            period == TopPostsTimePeriod::named(s@),
    {
        if same_text(s, "hour") {
            Some(TopPostsTimePeriod::Hour)
        } else if same_text(s, "day") {
            Some(TopPostsTimePeriod::Day)
        } else if same_text(s, "week") {
            Some(TopPostsTimePeriod::Week)
        } else if same_text(s, "month") {
            Some(TopPostsTimePeriod::Month)
        } else if same_text(s, "year") {
            Some(TopPostsTimePeriod::Year)
        } else if same_text(s, "all") {
            Some(TopPostsTimePeriod::All)
        } else {
            None
        }
    }

    /// Every window is read back from its own name.
    pub proof fn name_round_trip(period: TopPostsTimePeriod)
        ensures
            TopPostsTimePeriod::named(period.name()) == Some(period),
    {
        reveal_strlit("hour");
        reveal_strlit("day");
        reveal_strlit("week");
        reveal_strlit("month");
        reveal_strlit("year");
        reveal_strlit("all");
        assert("hour"@.len() == 4 && "day"@.len() == 3 && "week"@.len() == 4);
        assert("month"@.len() == 5 && "year"@.len() == 4 && "all"@.len() == 3);
        assert("hour"@[0] != "week"@[0] && "hour"@[0] != "year"@[0] && "week"@[0] != "year"@[0]);
        assert("day"@[0] != "all"@[0]);
    }
}

/// The kind that a post's flags and type hint determine. The first rule that
/// applies decides: a gallery flag, a self-post flag, a video flag or a video
/// hint, an image hint; without any hint the kind is unknown, and any other
/// hint makes the post a link.
pub open spec fn classified(
    is_gallery: Option<bool>,
    is_self: bool,
    is_video: bool,
    post_hint: Option<Seq<char>>,
) -> PostType {
    if is_gallery == Some(true) {
        PostType::Gallery
    } else if is_self {
        PostType::SelfText
    } else if is_video || post_hint == Some("video"@) || post_hint == Some("rich:video"@) {
        PostType::Video
    } else if post_hint == Some("image"@) {
        PostType::Image
    } else if post_hint is None {
        PostType::Unknown
    } else {
        PostType::Link
    }
}

/// The character view of an optional string slice.
pub open spec fn opt_view(s: Option<&str>) -> Option<Seq<char>> {
    match s {
        Some(t) => Some(t@),
        None => None,
    }
}

/// The character view of an optional string.
pub open spec fn opt_string_view(s: Option<String>) -> Option<Seq<char>> {
    match s {
        Some(t) => Some(t@),
        None => None,
    }
}

/// Classifies a post from its flags and type hint. Defined for every
/// combination of them.
pub fn classify(is_gallery: Option<bool>, is_self: bool, is_video: bool, post_hint: Option<&str>) -> (kind:
    PostType)
    ensures
        kind == classified(is_gallery, is_self, is_video, opt_view(post_hint)),
{
    match is_gallery {
        Some(true) => {
            return PostType::Gallery;
        },
        _ => {},
    }
    if is_self {
        return PostType::SelfText;
    }
    if is_video {
        return PostType::Video;
    }
    match post_hint {
        None => PostType::Unknown,
        Some(hint) => {
            if same_text(hint, "video") || same_text(hint, "rich:video") {
                PostType::Video
            } else if same_text(hint, "image") {
                PostType::Image
            } else {
                PostType::Link
            }
        },
    }
}

/// One entry of a gallery's ordered listing.
#[derive(Debug, Clone)]
pub struct GalleryDataItem {
    pub media_id: String,
    pub id: u64,
}

/// What the feed source knows of one medium of a gallery: the key under which
/// the gallery's listing refers to it, and the source image if there is one.
#[derive(Debug, Clone)]
pub struct MediaMetadata {
    pub media_id: String,
    pub x: u32,
    pub y: u32,
    pub url: Option<String>,
}

/// One fetched post.
#[derive(Debug, Clone)]
pub struct Post {
    pub id: String,
    /// Creation time in seconds since the Unix epoch.
    pub created: i64,
    pub post_hint: Option<String>,
    pub subreddit: String,
    pub title: String,
    pub is_self: bool,
    pub is_video: bool,
    pub is_gallery: Option<bool>,
    pub gallery_data: Option<Vec<GalleryDataItem>>,
    pub media_metadata: Option<Vec<MediaMetadata>>,
    pub ups: u32,
    pub permalink: String,
    pub url: String,
    pub post_type: PostType,
}

impl Post {
    /// The kind that this post's own flags and hint determine.
    pub open spec fn classified_type(self) -> PostType {
        classified(self.is_gallery, self.is_self, self.is_video, opt_string_view(self.post_hint))
    }

    /// Classifies the post from its own flags and hint.
    pub fn classify(&self) -> (kind: PostType)
        ensures
            kind == self.classified_type(),
    {
        match &self.post_hint {
            Some(hint) => classify(self.is_gallery, self.is_self, self.is_video, Some(hint.as_str())),
            None => classify(self.is_gallery, self.is_self, self.is_video, None),
        }
    }
}

} // verus!
