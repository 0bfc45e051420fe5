//! Plain records that travel between the parts of the relay.

use crate::db::Recordable;
use crate::reddit::{PostType, TopPostsTimePeriod};
use vstd::prelude::*;

verus! {

/// A video fetched from a plain link, with what its file name told.
#[derive(Debug)]
pub struct Video {
    /// Where the downloaded file lies.
    pub path: String,
    pub url: String,
    pub id: String,
    pub title: String,
    pub width: u16,
    pub height: u16,
}

/// The feed under which videos from plain links are recorded.
pub const VIDEO_FEED: &'static str = "youtube download";

impl Recordable for Video {
    open spec fn record_id(&self) -> Seq<char> {
        self.id@
    }

    open spec fn record_title(&self) -> Seq<char> {
        self.title@
    }

    open spec fn record_subreddit(&self) -> Seq<char> {
        VIDEO_FEED@
    }

    fn id(&self) -> (id: &str) {
        self.id.as_str()
    }

    fn title(&self) -> (title: &str) {
        self.title.as_str()
    }

    fn subreddit(&self) -> (subreddit: &str) {
        VIDEO_FEED
    }
}

/// One chat's subscription to one subreddit, with its own overrides.
#[derive(Debug, Clone, PartialEq, Eq)]
pub struct Subscription {
    pub chat_id: i64,
    pub subreddit: String,
    pub limit: Option<u32>,
    pub time: Option<TopPostsTimePeriod>,
    pub filter: Option<PostType>,
}

/// What a subscribe or get command asks for.
#[derive(Debug, Clone, PartialEq, Eq)]
pub struct SubscriptionArgs {
    pub subreddit: String,
    pub limit: Option<u32>,
    pub time: Option<TopPostsTimePeriod>,
    pub filter: Option<PostType>,
}

/// The subscription that `args` describe for the chat `chat_id`.
pub open spec fn subscription_of(chat_id: i64, args: SubscriptionArgs) -> SubscriptionView {
    SubscriptionView {
        chat_id,
        subreddit: args.subreddit@,
        limit: args.limit,
        time: args.time,
        filter: args.filter,
    }
}

/// A subscription as plain values.
pub ghost struct SubscriptionView {
    pub chat_id: i64,
    pub subreddit: Seq<char>,
    pub limit: Option<u32>,
    pub time: Option<TopPostsTimePeriod>,
    pub filter: Option<PostType>,
}

impl View for Subscription {
    type V = SubscriptionView;

    open spec fn view(&self) -> SubscriptionView {
        SubscriptionView {
            chat_id: self.chat_id,
            subreddit: self.subreddit@,
            limit: self.limit,
            time: self.time,
            filter: self.filter,
        }
    }
}

/// Subscription arguments as plain values.
pub ghost struct SubscriptionArgsView {
    pub subreddit: Seq<char>,
    pub limit: Option<u32>,
    pub time: Option<TopPostsTimePeriod>,
    pub filter: Option<PostType>,
}

impl View for SubscriptionArgs {
    type V = SubscriptionArgsView;

    open spec fn view(&self) -> SubscriptionArgsView {
        SubscriptionArgsView {
            subreddit: self.subreddit@,
            limit: self.limit,
            time: self.time,
            filter: self.filter,
        }
    }
}

/// The instruction that a repost button carries: which post to send on,
/// whether its title goes along as the caption, and whether the post was
/// delivered as a group of media.
#[derive(Debug, Clone, PartialEq, Eq)]
pub struct ButtonCallbackData {
    pub post_id: String,
    pub copy_caption: bool,
    pub is_gallery: bool,
}

/// A button instruction as plain values.
pub ghost struct ButtonCallbackDataView {
    pub post_id: Seq<char>,
    pub copy_caption: bool,
    pub is_gallery: bool,
}

impl View for ButtonCallbackData {
    type V = ButtonCallbackDataView;

    open spec fn view(&self) -> ButtonCallbackDataView {
        ButtonCallbackDataView {
            post_id: self.post_id@,
            copy_caption: self.copy_caption,
            is_gallery: self.is_gallery,
        }
    }
}

} // verus!
