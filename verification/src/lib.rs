//! Feed-polling deduplication and post delivery planning for a relay that
//! forwards the top posts of subscribed subreddits to Telegram chats.
//!
//! The crate holds the decisions: which posts are new for a chat, what kind of
//! media a post is, how a delivery is laid out and captioned, and how commands
//! and file names are parsed. Network, storage and process handling live with
//! the caller, which feeds plain values in and carries the planned actions out.

pub mod bot;
pub mod config;
pub mod db;
pub mod handle_post;
pub mod messages;
pub mod pattern;
pub mod reddit;
pub mod scheduler;
pub mod text;
pub mod types;
pub mod ytdlp;
