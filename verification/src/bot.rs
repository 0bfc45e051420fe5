//! The commands that users send, how their arguments are read, and what each
//! command asks the relay to do.

use crate::config::{Config, FetchSettings};
use crate::pattern::{
    captures, find, group, group_text, regex_captures, regex_find, slice_between, slice_from,
    text_between,
};
use crate::reddit::{opt_string_view, opt_view, Post, PostType, TopPostsTimePeriod};
use crate::text::{
    concat2, parse_unsigned, parsed_unsigned, replace, replaced, signed_decimal,
    signed_decimal_string,
};
use crate::types::{ButtonCallbackData, SubscriptionArgs, SubscriptionArgsView};
use vstd::prelude::*;
use vstd::string::StringSliceAdditionalSpecFns;
use vstd::utf8::encode_utf8;

verus! {

/// The commands that the bot understands.
#[derive(Debug, Clone)]
pub enum Command {
    /// Display the list of commands.
    Help,
    /// Subscribe to a subreddit's top posts.
    Sub(SubscriptionArgs),
    /// Unsubscribe from a subreddit's top posts.
    Unsub(String),
    /// List the chat's subscriptions.
    ListSubs,
    /// Get top posts right away.
    Get(SubscriptionArgs),
    /// Register the channel to which the bot reposts.
    RegisterChannel(i64),
    /// Repost a message to the registered channel.
    RepostToChannel { message_id: i32, description: String },
}

/// Why the arguments of a subscribe or get command were refused.
#[derive(Debug, Clone, Copy, PartialEq, Eq, Structural)]
pub enum ParseError {
    /// The text does not start with a subreddit's name.
    NoSubreddit,
    /// `time=` names no window.
    UnknownTimePeriod,
    /// `filter=` names no kind of post.
    UnknownPostType,
}

impl ParseError {
    /// The error as text.
    pub open spec fn text(self) -> Seq<char> {
        match self {
            ParseError::NoSubreddit => "No subreddit given"@,
            ParseError::UnknownTimePeriod => "Matching variant not found"@,
            ParseError::UnknownPostType => "Matching variant not found"@,
        }
    }

    /// The error in words.
    pub fn to_string(&self) -> (s: String)
        ensures
            s@ == self.text(),
    {
        match self {
            ParseError::NoSubreddit => "No subreddit given".to_owned(),
            ParseError::UnknownTimePeriod => "Matching variant not found".to_owned(),
            ParseError::UnknownPostType => "Matching variant not found".to_owned(),
        }
    }
}

/// The subreddit's name: everything up to the first whitespace.
pub const SUBREDDIT_PATTERN: &'static str = r"^[^\s]+";

/// `limit=` and a number.
pub const LIMIT_PATTERN: &'static str = r"\blimit=(\d+)\b";

/// `time=` and a word.
pub const TIME_PATTERN: &'static str = r"\btime=(\w+)\b";

/// `filter=` and a word.
pub const FILTER_PATTERN: &'static str = r"\bfilter=(\w+)\b";

/// A subreddit's name without the prefix under which users often write it:
/// every `/r/` is cut, then every `r/`.
pub open spec fn bare_subreddit(name: Seq<char>) -> Seq<char> {
    replaced(replaced(name, "/r/"@, Seq::empty()), "r/"@, Seq::empty())
}

/// The number that `limit=` gives: what its digits stand for, if that fits
/// the limit's type; no limit otherwise.
pub open spec fn limit_of(digits: Option<Seq<char>>) -> Option<u32> {
    match digits {
        Some(d) => match parsed_unsigned(d, u32::MAX as nat) {
            Some(n) => Some(n as u32),
            None => None,
        },
        None => None,
    }
}

/// The arguments that the pieces of a command's text stand for: the name at
/// its start and, where the text holds them, what follows `limit=`, `time=`
/// and `filter=`. A window that is not known is refused first, then a kind of
/// post that is not known.
pub open spec fn args_of_parts(
    name: Seq<char>,
    limit: Option<Seq<char>>,
    time: Option<Seq<char>>,
    filter: Option<Seq<char>>,
) -> Result<SubscriptionArgsView, ParseError> {
    if time is Some && TopPostsTimePeriod::named(time->0) is None {
        Err(ParseError::UnknownTimePeriod)
    } else if filter is Some && PostType::named(filter->0) is None {
        Err(ParseError::UnknownPostType)
    } else {
        Ok(
            SubscriptionArgsView {
                subreddit: bare_subreddit(name),
                limit: limit_of(limit),
                time: match time {
                    Some(t) => TopPostsTimePeriod::named(t),
                    None => None,
                },
                filter: match filter {
                    Some(f) => PostType::named(f),
                    None => None,
                },
            },
        )
    }
}

/// What a command's text stands for. The name is what `SUBREDDIT_PATTERN`
/// finds; the three settings are looked for in the text behind the name only.
pub open spec fn subscribe_args_of(input: Seq<char>) -> Result<SubscriptionArgsView, ParseError> {
    match regex_find(SUBREDDIT_PATTERN@, input) {
        None => Err(ParseError::NoSubreddit),
        Some(span) => {
            let name = text_between(input, span.0 as int, span.1 as int);
            let rest = text_between(input, span.1 as int, encode_utf8(input).len() as int);
            args_of_parts(
                name,
                group_text(regex_captures(LIMIT_PATTERN@, rest), 1),
                group_text(regex_captures(TIME_PATTERN@, rest), 1),
                group_text(regex_captures(FILTER_PATTERN@, rest), 1),
            )
        },
    }
}

/// The view of a parse result.
pub open spec fn parsed_view(r: Result<SubscriptionArgs, ParseError>) -> Result<
    SubscriptionArgsView,
    ParseError,
> {
    match r {
        Ok(args) => Ok(args@),
        Err(e) => Err(e),
    }
}

/// Builds the arguments from the pieces that were found in a command's text.
pub fn args_from_parts(name: &str, limit: Option<&str>, time: Option<&str>, filter: Option<&str>) -> (r:
    Result<SubscriptionArgs, ParseError>)
    ensures
        parsed_view(r) == args_of_parts(name@, opt_view(limit), opt_view(time), opt_view(filter)),
{
    let without_slash = replace(name, "/r/", "");
    let subreddit = replace(without_slash.as_str(), "r/", "");
    proof {
        reveal_strlit("");
        assert(""@ =~= Seq::<char>::empty());
    }
    let limit: Option<u32> = match limit {
        Some(digits) => match parse_unsigned(digits, 4294967295u64) {
            Some(n) => Some(n as u32),
            None => None,
        },
        None => None,
    };
    let time = match time {
        Some(t) => match TopPostsTimePeriod::from_str(t) {
            Some(p) => Some(p),
            None => {
                return Err(ParseError::UnknownTimePeriod);
            },
        },
        None => None,
    };
    let filter = match filter {
        Some(f) => match PostType::from_str(f) {
            Some(k) => Some(k),
            None => {
                return Err(ParseError::UnknownPostType);
            },
        },
        None => None,
    };
    Ok(SubscriptionArgs { subreddit, limit, time, filter })
}

/// Reads the arguments of a subscribe or get command: a subreddit's name, then
/// in any order and each optional `limit=<number>`, `time=<window>` and
/// `filter=<kind>`.
pub fn parse_subscribe_message(input: String) -> (r: Result<(SubscriptionArgs,), ParseError>)
    ensures
        match r {
            Ok(args) => Ok(args.0@),
            Err(e) => Err(e),
        } == subscribe_args_of(input@),
{
    let text = input.as_str();
    let span = match find(SUBREDDIT_PATTERN, text) {
        Some(span) => span,
        None => {
            return Err(ParseError::NoSubreddit);
        },
    };
    proof {
        vstd::utf8::encode_utf8_valid_utf8(text@);
        vstd::utf8::is_char_boundary_start_end_of_seq(text.spec_bytes());
    }
    let name = slice_between(text, span.0, span.1);
    let rest = slice_from(text, span.1);
    let limit = captures(LIMIT_PATTERN, rest);
    let time = captures(TIME_PATTERN, rest);
    let filter = captures(FILTER_PATTERN, rest);
    match args_from_parts(name, group(&limit, 1), group(&time, 1), group(&filter, 1)) {
        Ok(args) => Ok((args, )),
        Err(e) => Err(e),
    }
}


/// What the bot answers where handling a command failed.
pub const FAILURE_REPLY: &'static str = "Something went wrong";

/// What the bot answers where a repost has no channel to go to.
pub const NOT_REGISTERED_REPLY: &'static str = "Repost channel not registered";

/// What a command asks of the relay. Where the relay has to fetch or to look
/// something up first, the plan says what, and a function of this module
/// says how to go on with what came back.
#[derive(Debug, Clone)]
pub enum CommandPlan {
    /// Send the list of commands.
    Help,
    /// Look the subreddit up at the feed source, then go on with
    /// `subscribe_outcome`.
    LookUp { args: SubscriptionArgs },
    /// Remove the chat's subscription and answer with `unsubscribe_reply`.
    Unsubscribe { subreddit: String },
    /// Send the chat's subscriptions as a list.
    ListSubscriptions,
    /// Fetch the subreddit's top posts, then go on with `handle_get_command`.
    Fetch { subreddit: String, settings: FetchSettings },
    /// Register the channel for the chat, then send the reply.
    RegisterChannel { channel_id: i64, reply: String },
    /// Look up the chat's repost channel, then go on with `handle_repost`.
    Repost { message_id: i32, caption: Option<String> },
}

/// The name that an unsubscribe command means: what the user wrote without
/// any `r/` in it.
pub open spec fn unsubscribe_target(subreddit: Seq<char>) -> Seq<char> {
    replaced(subreddit, "r/"@, Seq::empty())
}

/// The reply to a registered repost channel.
pub open spec fn register_channel_reply_text(channel_id: i64) -> Seq<char> {
    "Repost channel "@ + signed_decimal(channel_id as int) + " added successfully"@
}

/// Whether `plan` is what `command` asks for under `config`.
pub open spec fn is_plan_of(command: Command, config: Config, plan: CommandPlan) -> bool {
    match command {
        Command::Help => plan is Help,
        Command::Sub(wanted) => plan matches CommandPlan::LookUp { args } && args@ == wanted@,
        Command::Unsub(name) => plan matches CommandPlan::Unsubscribe { subreddit } && subreddit@
            == unsubscribe_target(name@),
        Command::ListSubs => plan is ListSubscriptions,
        Command::Get(wanted) => plan matches CommandPlan::Fetch { subreddit, settings } && subreddit@
            == wanted.subreddit@ && settings == config.settings_of(
            wanted.limit,
            wanted.time,
            wanted.filter,
        ),
        Command::RegisterChannel(id) => plan matches CommandPlan::RegisterChannel { channel_id, reply }
            && channel_id == id && reply@ == register_channel_reply_text(id),
        Command::RepostToChannel { message_id: id, description } => plan matches CommandPlan::Repost {
            message_id,
            caption,
        } && message_id == id && opt_string_view(caption) == (if description@.len()
            == 0 {
            None
        } else {
            Some(description@)
        }),
    }
}

/// Decides what a command asks of the relay.
pub fn handle_command(command: Command, config: &Config) -> (plan: CommandPlan)
    ensures
        is_plan_of(command, *config, plan),
{
    match command {
        Command::Help => CommandPlan::Help,
        Command::Sub(args) => CommandPlan::LookUp { args },
        Command::Unsub(subreddit) => {
            proof {
                reveal_strlit("");
                assert(""@ =~= Seq::<char>::empty());
            }
            CommandPlan::Unsubscribe { subreddit: replace(subreddit.as_str(), "r/", "") }
        },
        Command::ListSubs => CommandPlan::ListSubscriptions,
        Command::Get(args) => {
            let settings = config.settings_for(args.limit, args.time, args.filter);
            CommandPlan::Fetch { subreddit: args.subreddit, settings }
        },
        Command::RegisterChannel(channel_id) => {
            let mut reply = "Repost channel ".to_owned();
            reply.push_str(signed_decimal_string(channel_id).as_str());
            reply.push_str(" added successfully");
            CommandPlan::RegisterChannel { channel_id, reply }
        },
        Command::RepostToChannel { message_id, description } => {
            let caption = if description.as_str().is_empty() {
                None
            } else {
                Some(description)
            };
            CommandPlan::Repost { message_id, caption }
        },
    }
}

/// What the feed source said of a subreddit that a chat wants to subscribe to.
#[derive(Debug, Clone)]
pub enum AboutOutcome {
    /// The subreddit exists; this is its name as the source writes it.
    Found { display_name: String },
    /// The source knows no subreddit of that name.
    NoSuchSubreddit,
    /// The source could not be asked.
    Failed,
}

/// How a subscribe command ends.
#[derive(Debug, Clone)]
pub enum SubscribeOutcome {
    /// Enter the subscription and send the reply.
    Subscribe { args: SubscriptionArgs, reply: String },
    /// Send the reply and change nothing.
    Reply { text: String },
    /// Handling the command failed.
    Fail,
}

/// Whether `outcome` is how a subscribe command with the arguments `wanted`
/// ends after the feed source answered `about`: a subreddit that exists is
/// subscribed to under the name that the source gives it.
pub open spec fn is_subscribe_outcome(
    wanted: SubscriptionArgs,
    about: AboutOutcome,
    outcome: SubscribeOutcome,
) -> bool {
    match about {
        AboutOutcome::Found { display_name } => outcome matches SubscribeOutcome::Subscribe {
            args,
            reply,
        } && args@ == (SubscriptionArgsView { subreddit: display_name@, ..wanted@ }) && reply@
            == "Subscribed to r/"@ + display_name@,
        AboutOutcome::NoSuchSubreddit => outcome matches SubscribeOutcome::Reply { text } && text@
            == "No such subreddit"@,
        AboutOutcome::Failed => outcome is Fail,
    }
}

/// Goes on with a subscribe command once the feed source has answered.
pub fn subscribe_outcome(args: SubscriptionArgs, about: AboutOutcome) -> (outcome: SubscribeOutcome)
    ensures
        is_subscribe_outcome(args, about, outcome),
{
    match about {
        AboutOutcome::Found { display_name } => {
            let reply = concat2("Subscribed to r/", display_name.as_str());
            SubscribeOutcome::Subscribe {
                args: SubscriptionArgs {
                    subreddit: display_name,
                    limit: args.limit,
                    time: args.time,
                    filter: args.filter,
                },
                reply,
            }
        },
        AboutOutcome::NoSuchSubreddit => SubscribeOutcome::Reply { text: "No such subreddit".to_owned() },
        AboutOutcome::Failed => SubscribeOutcome::Fail,
    }
}

/// The reply to an unsubscribe command: the name of the subscription that
/// was removed, or that there was none under the name that was asked for.
pub open spec fn unsubscribe_reply_text(requested: Seq<char>, removed: Option<Seq<char>>) -> Seq<char> {
    match removed {
        Some(name) => "Unsubscribed from r/"@ + name,
        None => "Error: Not subscribed to r/"@ + requested,
    }
}

/// Words the reply to an unsubscribe command.
pub fn unsubscribe_reply(requested: &str, removed: Option<&str>) -> (reply: String)
    ensures
        reply@ == unsubscribe_reply_text(requested@, opt_view(removed)),
{
    match removed {
        Some(name) => concat2("Unsubscribed from r/", name),
        None => concat2("Error: Not subscribed to r/", requested),
    }
}

/// How a get command ends.
#[derive(Debug, Clone, PartialEq, Eq)]
pub enum GetPlan {
    /// Record and deliver the posts at these places of the listing, in order.
    Deliver { posts: Vec<usize> },
    /// Send the reply.
    Reply { text: String },
}

/// The places of the posts of a listing that a filter lets through.
pub open spec fn selected(posts: Seq<Post>, filter: Option<PostType>) -> Seq<int>
    decreases posts.len(),
{
    if posts.len() == 0 {
        Seq::empty()
    } else if crate::scheduler::passes(filter, posts.last().post_type) {
        selected(posts.drop_last(), filter).push(posts.len() - 1)
    } else {
        selected(posts.drop_last(), filter)
    }
}

/// Whether `plan` is how a get command ends for the listing that was fetched.
pub open spec fn is_get_plan(posts: Seq<Post>, filter: Option<PostType>, plan: GetPlan) -> bool {
    if selected(posts, filter).len() == 0 {
        plan matches GetPlan::Reply { text } && text@ == "No posts found"@
    } else {
        plan matches GetPlan::Deliver { posts: places } && crate::scheduler::places(places@) == selected(
            posts,
            filter,
        )
    }
}

/// Goes on with a get command once the listing is fetched: the posts that the
/// filter lets through are delivered, seen before or not; where there is
/// none, the chat is told so.
pub fn handle_get_command(posts: &Vec<Post>, filter: Option<PostType>) -> (plan: GetPlan)
    ensures
        is_get_plan(posts@, filter, plan),
{
    let mut places: Vec<usize> = Vec::new();
    let mut i: usize = 0;
    proof {
        assert(posts@.take(0) =~= Seq::<Post>::empty());
        assert(crate::scheduler::places(places@) =~= Seq::<int>::empty());
    }
    while i < posts.len()
        invariant
            i <= posts.len(),
            crate::scheduler::places(places@) == selected(posts@.take(i as int), filter),
        decreases posts.len() - i,
    {
        proof {
            assert(posts@.take(i + 1).drop_last() =~= posts@.take(i as int));
            assert(posts@.take(i + 1).last() == posts@[i as int]);
        }
        if crate::scheduler::passes_filter(filter, posts[i].post_type) {
            let ghost before = crate::scheduler::places(places@);
            places.push(i);
            proof {
                assert(crate::scheduler::places(places@) =~= before.push(i as int));
            }
        }
        i += 1;
    }
    proof {
        assert(posts@.take(posts.len() as int) =~= posts@);
        assert(crate::scheduler::places(places@).len() == places@.len());
    }
    if places.len() > 0 {
        GetPlan::Deliver { posts: places }
    } else {
        GetPlan::Reply { text: "No posts found".to_owned() }
    }
}

/// How a repost of one message ends.
#[derive(Debug, Clone, PartialEq, Eq)]
pub enum RepostPlan {
    /// Tell the chat that it has no repost channel.
    NotRegistered { reply: String },
    /// Copy the message from the chat to the channel under the caption.
    Copy { to: i64, from: i64, message_id: i32, caption: String },
}

/// Whether `plan` is how a repost of one message ends.
pub open spec fn is_repost_plan(
    channel: Option<i64>,
    chat_id: i64,
    message_id: i32,
    caption: Option<Seq<char>>,
    plan: RepostPlan,
) -> bool {
    match channel {
        None => plan matches RepostPlan::NotRegistered { reply } && reply@ == NOT_REGISTERED_REPLY@,
        Some(channel_id) => plan matches RepostPlan::Copy { to, from, message_id: id, caption: text }
            && to == channel_id && from == chat_id && id == message_id && text@ == (match caption {
            Some(c) => c,
            None => Seq::empty(),
        }),
    }
}

/// Lays out the repost of one message, given the chat's repost channel. A
/// repost without a caption goes out with an empty one.
pub fn handle_repost(channel: Option<i64>, chat_id: i64, message_id: i32, caption: Option<String>) -> (plan:
    RepostPlan)
    ensures
        is_repost_plan(channel, chat_id, message_id, opt_string_view(caption), plan),
{
    match channel {
        None => RepostPlan::NotRegistered { reply: NOT_REGISTERED_REPLY.to_owned() },
        Some(to) => {
            let caption = match caption {
                Some(c) => c,
                None => String::new(),
            };
            RepostPlan::Copy { to, from: chat_id, message_id, caption }
        },
    }
}

/// One medium of a reposted gallery: a photo that the chat service already
/// keeps. Only the first of a group is marked as HTML and may carry a caption.
#[derive(Debug, Clone, PartialEq, Eq)]
pub struct RepostMedia {
    pub file_id: String,
    pub caption: Option<String>,
    pub html: bool,
}

/// How a repost of a gallery ends.
#[derive(Debug, Clone, PartialEq, Eq)]
pub enum GalleryRepostPlan {
    /// Tell the chat that it has no repost channel.
    NotRegistered { reply: String },
    /// Send the group to the channel.
    Send { to: i64, media: Vec<RepostMedia> },
}

/// The group that reposts the kept files of a gallery: only the first
/// medium is marked as HTML and carries the caption, if there is one.
pub open spec fn repost_group(file_ids: Seq<Seq<char>>, caption: Option<Seq<char>>) -> Seq<
    (Seq<char>, Option<Seq<char>>, bool),
> {
    Seq::new(
        file_ids.len(),
        |i: int|
            (
                file_ids[i],
                if i == 0 {
                    caption
                } else {
                    None
                },
                i == 0,
            ),
    )
}

/// A group of reposted media as plain values.
pub open spec fn repost_media_view(media: Seq<RepostMedia>) -> Seq<(Seq<char>, Option<Seq<char>>, bool)> {
    media.map_values(|m: RepostMedia| (m.file_id@, opt_string_view(m.caption), m.html))
}

/// Whether `plan` is how a repost of a gallery ends.
pub open spec fn is_gallery_repost_plan(
    channel: Option<i64>,
    file_ids: Seq<Seq<char>>,
    caption: Option<Seq<char>>,
    plan: GalleryRepostPlan,
) -> bool {
    match channel {
        None => plan matches GalleryRepostPlan::NotRegistered { reply } && reply@
            == NOT_REGISTERED_REPLY@,
        Some(channel_id) => plan matches GalleryRepostPlan::Send { to, media } && to == channel_id
            && repost_media_view(media@) == repost_group(file_ids, caption),
    }
}

/// Lays out the repost of a gallery from the files that the chat service
/// keeps for it, given the chat's repost channel.
pub fn handle_repost_gallery(
    channel: Option<i64>,
    gallery_file_ids: Vec<String>,
    post_caption: Option<String>,
) -> (plan: GalleryRepostPlan)
    ensures
        is_gallery_repost_plan(
            channel,
            crate::text::views(gallery_file_ids@),
            opt_string_view(post_caption),
            plan,
        ),
{
    let to = match channel {
        Some(to) => to,
        None => {
            return GalleryRepostPlan::NotRegistered { reply: NOT_REGISTERED_REPLY.to_owned() };
        },
    };
    let ghost wanted = repost_group(
        crate::text::views(gallery_file_ids@),
        opt_string_view(post_caption),
    );
    let mut media: Vec<RepostMedia> = Vec::new();
    let mut i: usize = 0;
    while i < gallery_file_ids.len()
        invariant
            i <= gallery_file_ids.len(),
            wanted == repost_group(
                crate::text::views(gallery_file_ids@),
                opt_string_view(post_caption),
            ),
            media.len() == i,
            forall|k: int| 0 <= k < i ==> (#[trigger] repost_media_view(media@)[k]) == wanted[k],
        decreases gallery_file_ids.len() - i,
    {
        let ghost before = repost_media_view(media@);
        // The first medium of a group holds the caption of the whole group.
        let caption = if i == 0 {
            match &post_caption {
                Some(c) => Some(c.clone()),
                None => None,
            }
        } else {
            None
        };
        media.push(RepostMedia { file_id: gallery_file_ids[i].clone(), caption, html: i == 0 });
        proof {
            assert forall|k: int| 0 <= k < i + 1 implies (#[trigger] repost_media_view(media@)[k])
                == wanted[k] by {
                if k < i {
                    assert(repost_media_view(media@)[k] == before[k]);
                }
            }
        }
        i += 1;
    }
    proof {
        assert(repost_media_view(media@) =~= wanted);
    }
    GalleryRepostPlan::Send { to, media }
}

/// What a pressed button asks for.
#[derive(Debug, Clone, PartialEq, Eq)]
pub enum CallbackPlan {
    /// Send the files kept for the post again, as a group.
    Gallery { post_id: String, with_title: bool },
    /// Copy one message to the repost channel.
    Single { post_id: String, message_id: i32, with_title: bool },
}

/// Whether `plan` is what a pressed button asks for. The button hangs under
/// the message `message_id`; where that message answers another one, the
/// other one is the delivery to copy.
pub open spec fn is_callback_plan(
    data: ButtonCallbackData,
    message_id: i32,
    reply_to: Option<i32>,
    plan: CallbackPlan,
) -> bool {
    if data.is_gallery {
        plan matches CallbackPlan::Gallery { post_id, with_title } && post_id@ == data.post_id@
            && with_title == data.copy_caption
    } else {
        plan matches CallbackPlan::Single { post_id, message_id: id, with_title } && post_id@
            == data.post_id@ && with_title == data.copy_caption && id == (match reply_to {
            Some(answered) => answered,
            None => message_id,
        })
    }
}

/// Reads what a pressed button asks for. Where the plan says `with_title`,
/// the title under which the post was recorded is the caption of the repost.
pub fn callback_handler(data: &ButtonCallbackData, message_id: i32, reply_to: Option<i32>) -> (plan:
    CallbackPlan)
    ensures
        is_callback_plan(*data, message_id, reply_to, plan),
{
    if data.is_gallery {
        CallbackPlan::Gallery { post_id: data.post_id.clone(), with_title: data.copy_caption }
    } else {
        let target = match reply_to {
            Some(answered) => answered,
            None => message_id,
        };
        CallbackPlan::Single {
            post_id: data.post_id.clone(),
            message_id: target,
            with_title: data.copy_caption,
        }
    }
}

} // verus!
