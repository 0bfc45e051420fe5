//! The persisted state of the relay as a value: which posts each chat has
//! seen, who subscribes to what, where reposts go, and which files a gallery
//! delivery produced.

use crate::reddit::{opt_string_view, Post};
use crate::text::{chars_of, same_text};
use crate::types::{Subscription, SubscriptionArgs, SubscriptionArgsView, SubscriptionView};
use vstd::prelude::*;

verus! {

/// Something that can be entered into the ledger of seen posts: it has an id,
/// a title and a feed that it came from.
pub trait Recordable {
    spec fn record_id(&self) -> Seq<char>;

    spec fn record_title(&self) -> Seq<char>;

    spec fn record_subreddit(&self) -> Seq<char>;

    fn id(&self) -> (id: &str)
        ensures
            id@ == self.record_id(),
    ;

    fn title(&self) -> (title: &str)
        ensures
            title@ == self.record_title(),
    ;

    fn subreddit(&self) -> (subreddit: &str)
        ensures
            subreddit@ == self.record_subreddit(),
    ;
}

impl Recordable for Post {
    open spec fn record_id(&self) -> Seq<char> {
        self.id@
    }

    open spec fn record_title(&self) -> Seq<char> {
        self.title@
    }

    open spec fn record_subreddit(&self) -> Seq<char> {
        self.subreddit@
    }

    fn id(&self) -> (id: &str) {
        self.id.as_str()
    }

    fn title(&self) -> (title: &str) {
        self.title.as_str()
    }

    fn subreddit(&self) -> (subreddit: &str) {
        self.subreddit.as_str()
    }
}


/// One row of the ledger of seen posts. A row without a time stands for a
/// post that was noted but whose delivery was not yet attempted.
#[derive(Debug, Clone, PartialEq, Eq)]
pub struct PostRecord {
    pub post_id: String,
    pub chat_id: i64,
    pub subreddit: String,
    /// Seconds since the Unix epoch.
    pub seen_at: Option<i64>,
    pub post_title: String,
}

/// A chat that the relay knows, with the channel that its reposts go to.
#[derive(Debug, Clone, Copy, PartialEq, Eq, Structural)]
pub struct Chat {
    pub chat_id: i64,
    pub repost_channel_id: Option<i64>,
}

/// One file that the chat service keeps for a delivered post.
#[derive(Debug, Clone, PartialEq, Eq)]
pub struct TelegramFile {
    pub post_id: String,
    pub chat_id: i64,
    pub file_id: String,
    pub unique_id: String,
}

/// A row of the ledger of seen posts as plain values.
pub ghost struct PostRecordView {
    pub post_id: Seq<char>,
    pub chat_id: i64,
    pub subreddit: Seq<char>,
    pub seen_at: Option<i64>,
    pub post_title: Seq<char>,
}

/// A kept file as plain values.
pub ghost struct TelegramFileView {
    pub post_id: Seq<char>,
    pub chat_id: i64,
    pub file_id: Seq<char>,
    pub unique_id: Seq<char>,
}

impl View for PostRecord {
    type V = PostRecordView;

    open spec fn view(&self) -> PostRecordView {
        PostRecordView {
            post_id: self.post_id@,
            chat_id: self.chat_id,
            subreddit: self.subreddit@,
            seen_at: self.seen_at,
            post_title: self.post_title@,
        }
    }
}

impl View for TelegramFile {
    type V = TelegramFileView;

    open spec fn view(&self) -> TelegramFileView {
        TelegramFileView {
            post_id: self.post_id@,
            chat_id: self.chat_id,
            file_id: self.file_id@,
            unique_id: self.unique_id@,
        }
    }
}

/// Why the ledger refused a request.
#[derive(Debug, Clone, Copy, PartialEq, Eq, Structural)]
pub enum DbError {
    /// There is no row to answer from.
    NoSuchRow,
    /// The chat is known but has no repost channel.
    NoRepostChannel,
    /// The post that a file belongs to was never recorded for the chat.
    UnknownPost,
}

/// The state of the four tables: seen posts, subscriptions, chats and kept
/// files, each in the order in which its rows were entered.
pub ghost struct LedgerView {
    pub posts: Seq<PostRecordView>,
    pub subscriptions: Seq<SubscriptionView>,
    pub chats: Seq<Chat>,
    pub files: Seq<TelegramFileView>,
}

/// A letter of the basic Latin alphabet in lower case; any other character
/// as it is. Characters are given by their code points.
pub open spec fn folded(c: char) -> u32 {
    let code = c as u32;
    if 65 <= code <= 90 {
        (code + 32) as u32
    } else {
        code
    }
}

/// Whether `text` matches `pattern`: `%` stands for any run of characters,
/// `_` for any one character, and every other character for itself, where
/// the letters `a` to `z` match in either case.
pub open spec fn like(pattern: Seq<char>, text: Seq<char>) -> bool
    decreases pattern.len() + text.len(),
{
    if pattern.len() == 0 {
        text.len() == 0
    } else if pattern[0] == '%' {
        like(pattern.skip(1), text) || (text.len() > 0 && like(pattern, text.skip(1)))
    } else if text.len() == 0 {
        false
    } else if pattern[0] == '_' || folded(pattern[0]) == folded(text[0]) {
        like(pattern.skip(1), text.skip(1))
    } else {
        false
    }
}

/// The place of the first row that `is_it` holds of.
pub open spec fn first_index<T>(rows: Seq<T>, is_it: spec_fn(T) -> bool) -> Option<int>
    decreases rows.len(),
{
    if rows.len() == 0 {
        None
    } else {
        match first_index(rows.drop_last(), is_it) {
            Some(i) => Some(i),
            None => if is_it(rows.last()) {
                Some(rows.len() - 1)
            } else {
                None
            },
        }
    }
}

/// `first_index` gives a row that `is_it` holds of and that no such row
/// precedes, and gives none only where there is no such row.
pub proof fn first_index_is_first<T>(rows: Seq<T>, is_it: spec_fn(T) -> bool)
    ensures
        match first_index(rows, is_it) {
            Some(i) => 0 <= i < rows.len() && is_it(rows[i]) && forall|j: int|
                0 <= j < i ==> !is_it(#[trigger] rows[j]),
            None => forall|j: int| 0 <= j < rows.len() ==> !is_it(#[trigger] rows[j]),
        },
    decreases rows.len(),
{
    if rows.len() > 0 {
        let before = rows.drop_last();
        first_index_is_first(before, is_it);
        assert forall|j: int| 0 <= j < before.len() implies before[j] == rows[j] by {}
        match first_index(before, is_it) {
            Some(i) => {
                assert forall|j: int| 0 <= j < i implies !is_it(#[trigger] rows[j]) by {
                    assert(before[j] == rows[j]);
                }
            },
            None => {
                assert forall|j: int| 0 <= j < rows.len() - 1 implies !is_it(#[trigger] rows[j]) by {
                    assert(before[j] == rows[j]);
                }
            },
        }
    }
}

/// A row that `is_it` holds of and that no such row precedes is the one
/// that `first_index` gives.
pub proof fn first_index_at<T>(rows: Seq<T>, is_it: spec_fn(T) -> bool, at: int)
    requires
        0 <= at < rows.len(),
        is_it(rows[at]),
        forall|j: int| 0 <= j < at ==> !is_it(#[trigger] rows[j]),
    ensures
        first_index(rows, is_it) == Some(at),
{
    first_index_is_first(rows, is_it);
}

/// Where `is_it` holds of no row, `first_index` gives none.
pub proof fn first_index_none<T>(rows: Seq<T>, is_it: spec_fn(T) -> bool)
    requires
        forall|j: int| 0 <= j < rows.len() ==> !is_it(#[trigger] rows[j]),
    ensures
        first_index(rows, is_it) is None,
{
    first_index_is_first(rows, is_it);
}

/// Holds of the rows of the ledger for a post and a chat.
pub open spec fn post_key(post_id: Seq<char>, chat_id: i64) -> spec_fn(PostRecordView) -> bool {
    |r: PostRecordView| r.post_id == post_id && r.chat_id == chat_id
}

/// Holds of the row of a chat.
pub open spec fn chat_key(chat_id: i64) -> spec_fn(Chat) -> bool {
    |c: Chat| c.chat_id == chat_id
}

/// Holds of the subscription of a chat to a subreddit.
pub open spec fn subscription_key(chat_id: i64, subreddit: Seq<char>) -> spec_fn(SubscriptionView) -> bool {
    |s: SubscriptionView| s.chat_id == chat_id && s.subreddit == subreddit
}

/// The place of the first row of the ledger for a post and a chat.
pub open spec fn post_index(posts: Seq<PostRecordView>, post_id: Seq<char>, chat_id: i64) -> Option<int> {
    first_index(posts, post_key(post_id, chat_id))
}

/// The place of a chat's row.
pub open spec fn chat_index(chats: Seq<Chat>, chat_id: i64) -> Option<int> {
    first_index(chats, chat_key(chat_id))
}

/// The place of the subscription of a chat to a subreddit.
pub open spec fn subscription_index(subs: Seq<SubscriptionView>, chat_id: i64, subreddit: Seq<char>) -> Option<
    int,
> {
    first_index(subs, subscription_key(chat_id, subreddit))
}

/// Whether a kept file's row is there already: same post, chat and unique id.
pub open spec fn has_file(files: Seq<TelegramFileView>, post_id: Seq<char>, chat_id: i64, unique_id: Seq<char>) -> bool
    decreases files.len(),
{
    if files.len() == 0 {
        false
    } else {
        has_file(files.drop_last(), post_id, chat_id, unique_id) || (files.last().post_id == post_id
            && files.last().chat_id == chat_id && files.last().unique_id == unique_id)
    }
}

/// The subscriptions of one chat, in the order of the table.
pub open spec fn subscriptions_of(subs: Seq<SubscriptionView>, chat_id: i64) -> Seq<SubscriptionView>
    decreases subs.len(),
{
    if subs.len() == 0 {
        Seq::empty()
    } else if subs.last().chat_id == chat_id {
        subscriptions_of(subs.drop_last(), chat_id).push(subs.last())
    } else {
        subscriptions_of(subs.drop_last(), chat_id)
    }
}

/// Whether a subscription is one that `unsubscribe` removes.
pub open spec fn unsubscribed(sub: SubscriptionView, chat_id: i64, pattern: Seq<char>) -> bool {
    sub.chat_id == chat_id && like(pattern, sub.subreddit)
}

/// The subscriptions that stay when a chat unsubscribes from what matches
/// `pattern`.
pub open spec fn remaining(subs: Seq<SubscriptionView>, chat_id: i64, pattern: Seq<char>) -> Seq<
    SubscriptionView,
>
    decreases subs.len(),
{
    if subs.len() == 0 {
        Seq::empty()
    } else if unsubscribed(subs.last(), chat_id, pattern) {
        remaining(subs.drop_last(), chat_id, pattern)
    } else {
        remaining(subs.drop_last(), chat_id, pattern).push(subs.last())
    }
}

/// The name of the first subscription that `unsubscribe` removes.
pub open spec fn first_unsubscribed(subs: Seq<SubscriptionView>, chat_id: i64, pattern: Seq<char>) -> Option<
    Seq<char>,
>
    decreases subs.len(),
{
    if subs.len() == 0 {
        None
    } else {
        match first_unsubscribed(subs.drop_last(), chat_id, pattern) {
            Some(name) => Some(name),
            None => if unsubscribed(subs.last(), chat_id, pattern) {
                Some(subs.last().subreddit)
            } else {
                None
            },
        }
    }
}

/// The ids of the files kept for a post in a chat, oldest first.
pub open spec fn file_ids_of(files: Seq<TelegramFileView>, post_id: Seq<char>, chat_id: i64) -> Seq<
    Seq<char>,
>
    decreases files.len(),
{
    if files.len() == 0 {
        Seq::empty()
    } else if files.last().post_id == post_id && files.last().chat_id == chat_id {
        file_ids_of(files.drop_last(), post_id, chat_id).push(files.last().file_id)
    } else {
        file_ids_of(files.drop_last(), post_id, chat_id)
    }
}

impl LedgerView {
    /// Whether the ledger has a row for the post in the chat with a time in
    /// it: delivery to the chat was attempted.
    pub open spec fn is_post_seen(self, chat_id: i64, post_id: Seq<char>) -> bool {
        exists|i: int|
            0 <= i < self.posts.len() && (#[trigger] self.posts[i]).post_id == post_id
                && self.posts[i].chat_id == chat_id && self.posts[i].seen_at is Some
    }

    /// Whether the ledger has any row for the chat and the subreddit.
    pub open spec fn has_posts_for(self, chat_id: i64, subreddit: Seq<char>) -> bool {
        exists|i: int|
            0 <= i < self.posts.len() && (#[trigger] self.posts[i]).chat_id == chat_id
                && self.posts[i].subreddit == subreddit
    }

    /// The ledger after a post was recorded for a chat. A post without a row
    /// gets one, with the given time. A row without a time gets the given
    /// time. A row with a time stays as it is.
    pub open spec fn record_post(
        self,
        chat_id: i64,
        post_id: Seq<char>,
        subreddit: Seq<char>,
        post_title: Seq<char>,
        seen_at: Option<i64>,
    ) -> LedgerView {
        match post_index(self.posts, post_id, chat_id) {
            None => LedgerView {
                posts: self.posts.push(
                    PostRecordView { post_id, chat_id, subreddit, seen_at, post_title },
                ),
                ..self
            },
            Some(i) => if self.posts[i].seen_at is None {
                LedgerView {
                    posts: self.posts.update(i, PostRecordView { seen_at, ..self.posts[i] }),
                    ..self
                }
            } else {
                self
            },
        }
    }

    /// The title under which a post was recorded for a chat.
    pub open spec fn post_title(self, chat_id: i64, post_id: Seq<char>) -> Option<Seq<char>> {
        match post_index(self.posts, post_id, chat_id) {
            Some(i) => Some(self.posts[i].post_title),
            None => None,
        }
    }

    /// The ledger with a row for the chat, which is added where it is missing.
    pub open spec fn ensure_chat_exists(self, chat_id: i64) -> LedgerView {
        match chat_index(self.chats, chat_id) {
            Some(_) => self,
            None => LedgerView {
                chats: self.chats.push(Chat { chat_id, repost_channel_id: None }),
                ..self
            },
        }
    }

    /// The ledger after a chat subscribed: the chat is known, and its
    /// subscription to the subreddit, new or in place of the one it had, is
    /// the last row of the table.
    pub open spec fn subscribe(self, chat_id: i64, args: SubscriptionArgsView) -> LedgerView {
        let known = self.ensure_chat_exists(chat_id);
        let row = SubscriptionView {
            chat_id,
            subreddit: args.subreddit,
            limit: args.limit,
            time: args.time,
            filter: args.filter,
        };
        let others = match subscription_index(known.subscriptions, chat_id, args.subreddit) {
            Some(i) => known.subscriptions.remove(i),
            None => known.subscriptions,
        };
        LedgerView { subscriptions: others.push(row), ..known }
    }

    /// The ledger after a chat unsubscribed from what matches `pattern`.
    pub open spec fn unsubscribe(self, chat_id: i64, pattern: Seq<char>) -> LedgerView {
        LedgerView { subscriptions: remaining(self.subscriptions, chat_id, pattern), ..self }
    }

    /// The ledger after a chat registered its repost channel.
    pub open spec fn set_repost_channel(self, chat_id: i64, repost_channel_id: i64) -> LedgerView {
        let known = self.ensure_chat_exists(chat_id);
        match chat_index(known.chats, chat_id) {
            Some(i) => LedgerView {
                chats: known.chats.update(
                    i,
                    Chat { chat_id, repost_channel_id: Some(repost_channel_id) },
                ),
                ..known
            },
            None => known,
        }
    }

    /// The repost channel of a chat: none for a chat that is not known, an
    /// error for a chat that is known and has none.
    pub open spec fn repost_channel(self, chat_id: i64) -> Result<Option<i64>, DbError> {
        match chat_index(self.chats, chat_id) {
            None => Ok(None),
            Some(i) => match self.chats[i].repost_channel_id {
                Some(channel) => Ok(Some(channel)),
                None => Err(DbError::NoRepostChannel),
            },
        }
    }

    /// Whether a file can be entered for the post and the chat: the post has
    /// a row for the chat.
    pub open spec fn knows_post(self, chat_id: i64, post_id: Seq<char>) -> bool {
        post_index(self.posts, post_id, chat_id) is Some
    }

    /// The ledger after a file was entered for a post that is known. A file
    /// whose unique id is there already for the post and the chat is not
    /// entered again.
    pub open spec fn add_telegram_file(
        self,
        post_id: Seq<char>,
        chat_id: i64,
        file_id: Seq<char>,
        unique_id: Seq<char>,
    ) -> LedgerView {
        if has_file(self.files, post_id, chat_id, unique_id) {
            self
        } else {
            LedgerView {
                files: self.files.push(TelegramFileView { post_id, chat_id, file_id, unique_id }),
                ..self
            }
        }
    }

    /// What the tables guarantee: one row for each post and chat, one row for
    /// each chat, one subscription for each chat and subreddit, whose chat is
    /// known, and one row for each file of a post in a chat, whose post is known.
    pub open spec fn wf(self) -> bool {
        &&& forall|i: int, j: int|
            0 <= i < j < self.posts.len() ==> !((#[trigger] self.posts[i]).post_id
                == (#[trigger] self.posts[j]).post_id && self.posts[i].chat_id
                == self.posts[j].chat_id)
        &&& forall|i: int, j: int|
            0 <= i < j < self.chats.len() ==> (#[trigger] self.chats[i]).chat_id
                != (#[trigger] self.chats[j]).chat_id
        &&& forall|i: int, j: int|
            0 <= i < j < self.subscriptions.len() ==> !((#[trigger] self.subscriptions[i]).chat_id
                == (#[trigger] self.subscriptions[j]).chat_id && self.subscriptions[i].subreddit
                == self.subscriptions[j].subreddit)
        &&& forall|i: int|
            0 <= i < self.subscriptions.len() ==> chat_index(
                self.chats,
                (#[trigger] self.subscriptions[i]).chat_id,
            ) is Some
        &&& forall|i: int, j: int|
            0 <= i < j < self.files.len() ==> !((#[trigger] self.files[i]).post_id
                == (#[trigger] self.files[j]).post_id && self.files[i].chat_id
                == self.files[j].chat_id && self.files[i].unique_id == self.files[j].unique_id)
        &&& forall|i: int|
            0 <= i < self.files.len() ==> self.knows_post(
                (#[trigger] self.files[i]).chat_id,
                self.files[i].post_id,
            )
    }
}


/// The rows of the ledger of seen posts as plain values.
pub open spec fn post_views(posts: Seq<PostRecord>) -> Seq<PostRecordView> {
    posts.map_values(|r: PostRecord| r@)
}

/// Subscriptions as plain values.
pub open spec fn subscription_views(subs: Seq<Subscription>) -> Seq<SubscriptionView> {
    subs.map_values(|s: Subscription| s@)
}

/// Kept files as plain values.
pub open spec fn file_views(files: Seq<TelegramFile>) -> Seq<TelegramFileView> {
    files.map_values(|f: TelegramFile| f@)
}

/// The current time by `Utc::now` and `DateTime::timestamp` of the `chrono`
/// crate, in seconds since the Unix epoch. Nothing is claimed of it. (The
/// crate gives up where the machine's clock stands before 1970.)
#[verifier::external_body]
fn now() -> (seconds: i64) {
    chrono::Utc::now().timestamp()
}

/// The four tables of the relay, held in memory.
#[derive(Debug)]
pub struct Ledger {
    posts: Vec<PostRecord>,
    subscriptions: Vec<Subscription>,
    chats: Vec<Chat>,
    files: Vec<TelegramFile>,
}

impl View for Ledger {
    type V = LedgerView;

    closed spec fn view(&self) -> LedgerView {
        LedgerView {
            posts: post_views(self.posts@),
            subscriptions: subscription_views(self.subscriptions@),
            chats: self.chats@,
            files: file_views(self.files@),
        }
    }
}

fn fold(c: char) -> (code: u32)
    ensures
        code == folded(c),
{
    let code = c as u32;
    if code >= 65 && code <= 90 {
        code + 32
    } else {
        code
    }
}

fn like_from(pattern: &Vec<char>, p: usize, text: &Vec<char>, t: usize) -> (hit: bool)
    requires
        p <= pattern.len(),
        t <= text.len(),
    ensures
        hit == like(pattern@.skip(p as int), text@.skip(t as int)),
    decreases (pattern.len() - p) + (text.len() - t),
{
    let ghost ps = pattern@.skip(p as int);
    let ghost ts = text@.skip(t as int);
    if p == pattern.len() {
        return t == text.len();
    }
    proof {
        assert(ps[0] == pattern@[p as int]);
        assert(ps.skip(1) =~= pattern@.skip(p + 1));
        if t < text.len() {
            assert(ts[0] == text@[t as int]);
            assert(ts.skip(1) =~= text@.skip(t + 1));
        }
    }
    let c = pattern[p];
    if c == '%' {
        if like_from(pattern, p + 1, text, t) {
            true
        } else if t < text.len() {
            like_from(pattern, p, text, t + 1)
        } else {
            false
        }
    } else if t == text.len() {
        false
    } else if c == '_' || fold(c) == fold(text[t]) {
        like_from(pattern, p + 1, text, t + 1)
    } else {
        false
    }
}

/// Whether `text` matches `pattern`, where `%` stands for any run of
/// characters, `_` for any one, and the letters `a` to `z` match in either case.
pub fn like_match(pattern: &str, text: &str) -> (hit: bool)
    ensures
        hit == like(pattern@, text@),
{
    let p = chars_of(pattern);
    let t = chars_of(text);
    proof {
        assert(p@.skip(0) =~= p@);
        assert(t@.skip(0) =~= t@);
    }
    like_from(&p, 0, &t, 0)
}

fn copy_subscription(sub: &Subscription) -> (copy: Subscription)
    ensures
        copy@ == sub@,
{
    Subscription {
        chat_id: sub.chat_id,
        subreddit: sub.subreddit.clone(),
        limit: sub.limit,
        time: sub.time,
        filter: sub.filter,
    }
}

impl Ledger {
    /// A ledger without rows.
    pub fn new() -> (ledger: Ledger)
        ensures
            ledger@ == (LedgerView {
                posts: Seq::empty(),
                subscriptions: Seq::empty(),
                chats: Seq::empty(),
                files: Seq::empty(),
            }),
            ledger@.wf(),
    {
        let ledger = Ledger {
            posts: Vec::new(),
            subscriptions: Vec::new(),
            chats: Vec::new(),
            files: Vec::new(),
        };
        proof {
            assert(ledger@.posts =~= Seq::empty());
            assert(ledger@.subscriptions =~= Seq::empty());
            assert(ledger@.files =~= Seq::empty());
        }
        ledger
    }

    fn find_post(&self, post_id: &str, chat_id: i64) -> (at: Option<usize>)
        ensures
            match at {
                Some(i) => Some(i as int),
                None => None,
            } == post_index(self@.posts, post_id@, chat_id),
            at matches Some(i) ==> i < self.posts.len(),
    {
        let ghost rows = post_views(self.posts@);
        let mut i: usize = 0;
        while i < self.posts.len()
            invariant
                i <= self.posts.len(),
                rows == post_views(self.posts@),
                forall|j: int| 0 <= j < i ==> !post_key(post_id@, chat_id)(#[trigger] rows[j]),
            decreases self.posts.len() - i,
        {
            if self.posts[i].chat_id == chat_id && same_text(self.posts[i].post_id.as_str(), post_id) {
                proof {
                    first_index_at(rows, post_key(post_id@, chat_id), i as int);
                }
                return Some(i);
            }
            i += 1;
        }
        proof {
            first_index_none(rows, post_key(post_id@, chat_id));
        }
        None
    }

    fn find_chat(&self, chat_id: i64) -> (at: Option<usize>)
        ensures
            match at {
                Some(i) => Some(i as int),
                None => None,
            } == chat_index(self@.chats, chat_id),
            at matches Some(i) ==> i < self.chats.len(),
    {
        let mut i: usize = 0;
        while i < self.chats.len()
            invariant
                i <= self.chats.len(),
                forall|j: int| 0 <= j < i ==> !chat_key(chat_id)(#[trigger] self.chats@[j]),
            decreases self.chats.len() - i,
        {
            if self.chats[i].chat_id == chat_id {
                proof {
                    first_index_at(self.chats@, chat_key(chat_id), i as int);
                }
                return Some(i);
            }
            i += 1;
        }
        proof {
            first_index_none(self.chats@, chat_key(chat_id));
        }
        None
    }

    fn find_subscription(&self, chat_id: i64, subreddit: &str) -> (at: Option<usize>)
        ensures
            match at {
                Some(i) => Some(i as int),
                None => None,
            } == subscription_index(self@.subscriptions, chat_id, subreddit@),
            at matches Some(i) ==> i < self.subscriptions.len(),
    {
        let ghost rows = subscription_views(self.subscriptions@);
        let mut i: usize = 0;
        while i < self.subscriptions.len()
            invariant
                i <= self.subscriptions.len(),
                rows == subscription_views(self.subscriptions@),
                forall|j: int|
                    0 <= j < i ==> !subscription_key(chat_id, subreddit@)(#[trigger] rows[j]),
            decreases self.subscriptions.len() - i,
        {
            if self.subscriptions[i].chat_id == chat_id && same_text(
                self.subscriptions[i].subreddit.as_str(),
                subreddit,
            ) {
                proof {
                    first_index_at(rows, subscription_key(chat_id, subreddit@), i as int);
                }
                return Some(i);
            }
            i += 1;
        }
        proof {
            first_index_none(rows, subscription_key(chat_id, subreddit@));
        }
        None
    }

    /// Records a post for a chat. A post that has no row yet gets one with the
    /// given time; a row without a time gets the given time; a row with a
    /// time stays as it is.
    pub fn record_post<T: Recordable>(&mut self, chat_id: i64, post: &T, seen_at: Option<i64>)
        ensures
            final(self)@ == old(self)@.record_post(
                chat_id,
                post.record_id(),
                post.record_subreddit(),
                post.record_title(),
                seen_at,
            ),
            old(self)@.wf() ==> final(self)@.wf(),
    {
        proof {
            if old(self)@.wf() {
                old(self)@.record_post_keeps_wf(
                    chat_id,
                    post.record_id(),
                    post.record_subreddit(),
                    post.record_title(),
                    seen_at,
                );
            }
        }
        match self.find_post(post.id(), chat_id) {
            None => {
                self.posts.push(
                    PostRecord {
                        post_id: post.id().to_owned(),
                        chat_id,
                        subreddit: post.subreddit().to_owned(),
                        seen_at,
                        post_title: post.title().to_owned(),
                    },
                );
                proof {
                    assert(final(self)@.posts =~= old(self)@.posts.push(
                        PostRecordView {
                            post_id: post.record_id(),
                            chat_id,
                            subreddit: post.record_subreddit(),
                            seen_at,
                            post_title: post.record_title(),
                        },
                    ));
                }
            },
            Some(i) => {
                if self.posts[i].seen_at.is_none() {
                    let row = PostRecord {
                        post_id: self.posts[i].post_id.clone(),
                        chat_id: self.posts[i].chat_id,
                        subreddit: self.posts[i].subreddit.clone(),
                        seen_at,
                        post_title: self.posts[i].post_title.clone(),
                    };
                    self.posts.set(i, row);
                    proof {
                        assert(final(self)@.posts =~= old(self)@.posts.update(
                            i as int,
                            PostRecordView { seen_at, ..old(self)@.posts[i as int] },
                        ));
                    }
                }
            },
        }
    }

    /// Records a post for a chat as seen at the current time, whatever that is.
    pub fn record_post_seen_with_current_time<T: Recordable>(&mut self, chat_id: i64, post: &T)
        ensures
            exists|seconds: i64|
                final(self)@ == #[trigger] old(self)@.record_post(
                    chat_id,
                    post.record_id(),
                    post.record_subreddit(),
                    post.record_title(),
                    Some(seconds),
                ),
            old(self)@.wf() ==> final(self)@.wf(),
    {
        let current_time = now();
        self.record_post(chat_id, post, Some(current_time));
    }

    /// The title under which a post was recorded for a chat.
    pub fn get_post_title(&self, chat_id: i64, post_id: &str) -> (title: Result<String, DbError>)
        ensures
            match title {
                Ok(t) => Some(t@) == self@.post_title(chat_id, post_id@),
                Err(e) => e == DbError::NoSuchRow && self@.post_title(chat_id, post_id@) is None,
            },
    {
        match self.find_post(post_id, chat_id) {
            Some(i) => Ok(self.posts[i].post_title.clone()),
            None => Err(DbError::NoSuchRow),
        }
    }

    /// Whether delivery of the post to the chat was attempted before.
    pub fn is_post_seen<T: Recordable>(&self, chat_id: i64, post: &T) -> (seen: bool)
        ensures
            seen == self@.is_post_seen(chat_id, post.record_id()),
    {
        let ghost rows = post_views(self.posts@);
        let id = post.id();
        let mut i: usize = 0;
        while i < self.posts.len()
            invariant
                i <= self.posts.len(),
                rows == post_views(self.posts@),
                rows == self@.posts,
                id@ == post.record_id(),
                forall|j: int|
                    0 <= j < i ==> !((#[trigger] rows[j]).post_id == id@ && rows[j].chat_id == chat_id
                        && rows[j].seen_at is Some),
            decreases self.posts.len() - i,
        {
            if self.posts[i].chat_id == chat_id && self.posts[i].seen_at.is_some() && same_text(
                self.posts[i].post_id.as_str(),
                id,
            ) {
                proof {
                    assert(rows[i as int].post_id == id@);
                }
                return true;
            }
            i += 1;
        }
        false
    }

    /// Whether the ledger holds any post of the subreddit for the chat.
    pub fn existing_posts_for_subreddit(&self, chat_id: i64, subreddit: &str) -> (any: bool)
        ensures
            any == self@.has_posts_for(chat_id, subreddit@),
    {
        let ghost rows = post_views(self.posts@);
        let mut i: usize = 0;
        while i < self.posts.len()
            invariant
                i <= self.posts.len(),
                rows == post_views(self.posts@),
                rows == self@.posts,
                forall|j: int|
                    0 <= j < i ==> !((#[trigger] rows[j]).chat_id == chat_id && rows[j].subreddit
                        == subreddit@),
            decreases self.posts.len() - i,
        {
            if self.posts[i].chat_id == chat_id && same_text(
                self.posts[i].subreddit.as_str(),
                subreddit,
            ) {
                proof {
                    assert(rows[i as int].subreddit == subreddit@);
                }
                return true;
            }
            i += 1;
        }
        false
    }

    /// Makes sure that the chat has a row.
    pub fn ensure_chat_exists(&mut self, chat_id: i64)
        ensures
            final(self)@ == old(self)@.ensure_chat_exists(chat_id),
            old(self)@.wf() ==> final(self)@.wf(),
    {
        proof {
            if old(self)@.wf() {
                old(self)@.ensure_chat_keeps_wf(chat_id);
            }
        }
        if self.find_chat(chat_id).is_none() {
            self.chats.push(Chat { chat_id, repost_channel_id: None });
        }
    }

    /// Subscribes a chat to a subreddit. A subscription that the chat already
    /// has to it is replaced.
    pub fn subscribe(&mut self, chat_id: i64, args: &SubscriptionArgs)
        ensures
            final(self)@ == old(self)@.subscribe(chat_id, args@),
            old(self)@.wf() ==> final(self)@.wf(),
    {
        proof {
            if old(self)@.wf() {
                old(self)@.subscribe_keeps_wf(chat_id, args@);
            }
        }
        self.ensure_chat_exists(chat_id);
        let ghost known = self@;
        match self.find_subscription(chat_id, args.subreddit.as_str()) {
            Some(i) => {
                self.subscriptions.remove(i);
                proof {
                    assert(subscription_views(self.subscriptions@) =~= known.subscriptions.remove(
                        i as int,
                    ));
                }
            },
            None => {},
        }
        let ghost others = self@.subscriptions;
        self.subscriptions.push(
            Subscription {
                chat_id,
                subreddit: args.subreddit.clone(),
                limit: args.limit,
                time: args.time,
                filter: args.filter,
            },
        );
        proof {
            assert(final(self)@.subscriptions =~= others.push(
                SubscriptionView {
                    chat_id,
                    subreddit: args.subreddit@,
                    limit: args.limit,
                    time: args.time,
                    filter: args.filter,
                },
            ));
        }
    }

    /// Removes the chat's subscriptions whose subreddit matches `subreddit`
    /// (see `like`), and gives the name of the first of them, or an error
    /// where there is none.
    pub fn unsubscribe(&mut self, chat_id: i64, subreddit: &str) -> (removed: Result<String, DbError>)
        ensures
            final(self)@ == old(self)@.unsubscribe(chat_id, subreddit@),
            old(self)@.wf() ==> final(self)@.wf(),
            match removed {
                Ok(name) => Some(name@) == first_unsubscribed(
                    old(self)@.subscriptions,
                    chat_id,
                    subreddit@,
                ),
                Err(e) => e == DbError::NoSuchRow && first_unsubscribed(
                    old(self)@.subscriptions,
                    chat_id,
                    subreddit@,
                ) is None,
            },
    {
        proof {
            if old(self)@.wf() {
                old(self)@.unsubscribe_keeps_wf(chat_id, subreddit@);
            }
        }
        let ghost rows = subscription_views(self.subscriptions@);
        let mut kept: Vec<Subscription> = Vec::new();
        let mut first: Option<String> = None;
        let mut i: usize = 0;
        proof {
            assert(rows.take(0) =~= Seq::<SubscriptionView>::empty());
            assert(subscription_views(kept@) =~= Seq::<SubscriptionView>::empty());
        }
        while i < self.subscriptions.len()
            invariant
                i <= self.subscriptions.len(),
                rows == subscription_views(self.subscriptions@),
                subscription_views(kept@) == remaining(rows.take(i as int), chat_id, subreddit@),
                opt_string_view(first) == first_unsubscribed(
                    rows.take(i as int),
                    chat_id,
                    subreddit@,
                ),
            decreases self.subscriptions.len() - i,
        {
            proof {
                assert(rows.take(i + 1).drop_last() =~= rows.take(i as int));
                assert(rows.take(i + 1).last() == rows[i as int]);
            }
            let sub = &self.subscriptions[i];
            if sub.chat_id == chat_id && like_match(subreddit, sub.subreddit.as_str()) {
                if first.is_none() {
                    first = Some(sub.subreddit.clone());
                }
            } else {
                let ghost before = subscription_views(kept@);
                kept.push(copy_subscription(sub));
                proof {
                    assert(subscription_views(kept@) =~= before.push(rows[i as int]));
                }
            }
            i += 1;
        }
        proof {
            assert(rows.take(rows.len() as int) =~= rows);
        }
        self.subscriptions = kept;
        match first {
            Some(name) => Ok(name),
            None => Err(DbError::NoSuchRow),
        }
    }

    /// The subscriptions of one chat.
    pub fn get_subscriptions_for_chat(&self, chat_id: i64) -> (subs: Vec<Subscription>)
        ensures
            subscription_views(subs@) == subscriptions_of(self@.subscriptions, chat_id),
    {
        let ghost rows = subscription_views(self.subscriptions@);
        let mut subs: Vec<Subscription> = Vec::new();
        let mut i: usize = 0;
        proof {
            assert(rows.take(0) =~= Seq::<SubscriptionView>::empty());
            assert(subscription_views(subs@) =~= Seq::<SubscriptionView>::empty());
        }
        while i < self.subscriptions.len()
            invariant
                i <= self.subscriptions.len(),
                rows == subscription_views(self.subscriptions@),
                subscription_views(subs@) == subscriptions_of(rows.take(i as int), chat_id),
            decreases self.subscriptions.len() - i,
        {
            proof {
                assert(rows.take(i + 1).drop_last() =~= rows.take(i as int));
                assert(rows.take(i + 1).last() == rows[i as int]);
            }
            if self.subscriptions[i].chat_id == chat_id {
                let ghost before = subscription_views(subs@);
                subs.push(copy_subscription(&self.subscriptions[i]));
                proof {
                    assert(subscription_views(subs@) =~= before.push(rows[i as int]));
                }
            }
            i += 1;
        }
        proof {
            assert(rows.take(rows.len() as int) =~= rows);
        }
        subs
    }

    /// All subscriptions, in the order in which polls go through them.
    pub fn get_all_subscriptions(&self) -> (subs: Vec<Subscription>)
        ensures
            subscription_views(subs@) == self@.subscriptions,
    {
        let mut subs: Vec<Subscription> = Vec::new();
        let mut i: usize = 0;
        while i < self.subscriptions.len()
            invariant
                i <= self.subscriptions.len(),
                subs.len() == i,
                forall|j: int| 0 <= j < i ==> (#[trigger] subs@[j])@ == self.subscriptions@[j]@,
            decreases self.subscriptions.len() - i,
        {
            subs.push(copy_subscription(&self.subscriptions[i]));
            i += 1;
        }
        proof {
            assert(subscription_views(subs@) =~= subscription_views(self.subscriptions@));
        }
        subs
    }

    /// Registers the channel that the chat's reposts go to.
    pub fn set_repost_channel(&mut self, chat_id: i64, repost_channel_id: i64)
        ensures
            final(self)@ == old(self)@.set_repost_channel(chat_id, repost_channel_id),
            old(self)@.wf() ==> final(self)@.wf(),
    {
        proof {
            if old(self)@.wf() {
                old(self)@.set_repost_channel_keeps_wf(chat_id, repost_channel_id);
            }
        }
        self.ensure_chat_exists(chat_id);
        match self.find_chat(chat_id) {
            Some(i) => {
                self.chats.set(i, Chat { chat_id, repost_channel_id: Some(repost_channel_id) });
            },
            None => {},
        }
    }

    /// The channel that the chat's reposts go to: none for a chat that is not
    /// known, an error for a chat that is known and has none.
    pub fn get_repost_channel(&self, chat_id: i64) -> (channel: Result<Option<i64>, DbError>)
        ensures
            channel == self@.repost_channel(chat_id),
    {
        match self.find_chat(chat_id) {
            None => Ok(None),
            Some(i) => match self.chats[i].repost_channel_id {
                Some(channel) => Ok(Some(channel)),
                None => Err(DbError::NoRepostChannel),
            },
        }
    }

    /// Enters a file that the chat service keeps for a delivered post. The
    /// post must have been recorded for the chat. A file whose unique id is
    /// there already for the post and the chat is not entered again.
    pub fn add_telegram_file(
        &mut self,
        post_id: &str,
        chat_id: i64,
        telegram_file_id: &str,
        telegram_unique_file_id: &str,
    ) -> (r: Result<(), DbError>)
        ensures
            match r {
                Ok(_) => old(self)@.knows_post(chat_id, post_id@) && final(self)@
                    == old(self)@.add_telegram_file(
                    post_id@,
                    chat_id,
                    telegram_file_id@,
                    telegram_unique_file_id@,
                ),
                Err(e) => e == DbError::UnknownPost && !old(self)@.knows_post(chat_id, post_id@)
                    && final(self)@ == old(self)@,
            },
            old(self)@.wf() ==> final(self)@.wf(),
    {
        if self.find_post(post_id, chat_id).is_none() {
            return Err(DbError::UnknownPost);
        }
        proof {
            if old(self)@.wf() {
                old(self)@.add_telegram_file_keeps_wf(
                    post_id@,
                    chat_id,
                    telegram_file_id@,
                    telegram_unique_file_id@,
                );
            }
        }
        let ghost rows = file_views(self.files@);
        let mut i: usize = 0;
        proof {
            assert(rows.take(0) =~= Seq::<TelegramFileView>::empty());
        }
        while i < self.files.len()
            invariant
                i <= self.files.len(),
                rows == file_views(self.files@),
                rows == self@.files,
                *self == *old(self),
                old(self)@.knows_post(chat_id, post_id@),
                !has_file(rows.take(i as int), post_id@, chat_id, telegram_unique_file_id@),
            decreases self.files.len() - i,
        {
            proof {
                assert(rows.take(i + 1).drop_last() =~= rows.take(i as int));
                assert(rows.take(i + 1).last() == rows[i as int]);
            }
            let file = &self.files[i];
            if file.chat_id == chat_id && same_text(file.post_id.as_str(), post_id) && same_text(
                file.unique_id.as_str(),
                telegram_unique_file_id,
            ) {
                proof {
                    has_file_grows(rows, post_id@, chat_id, telegram_unique_file_id@, i + 1);
                }
                return Ok(());
            }
            i += 1;
        }
        proof {
            assert(rows.take(rows.len() as int) =~= rows);
        }
        self.files.push(
            TelegramFile {
                post_id: post_id.to_owned(),
                chat_id,
                file_id: telegram_file_id.to_owned(),
                unique_id: telegram_unique_file_id.to_owned(),
            },
        );
        proof {
            assert(final(self)@.files =~= rows.push(
                TelegramFileView {
                    post_id: post_id@,
                    chat_id,
                    file_id: telegram_file_id@,
                    unique_id: telegram_unique_file_id@,
                },
            ));
        }
        Ok(())
    }

    /// The ids of the files kept for a post in a chat, oldest first.
    pub fn get_telegram_files_for_post(&self, post_id: &str, chat_id: i64) -> (ids: Vec<String>)
        ensures
            crate::text::views(ids@) == file_ids_of(self@.files, post_id@, chat_id),
    {
        let ghost rows = file_views(self.files@);
        let mut ids: Vec<String> = Vec::new();
        let mut i: usize = 0;
        proof {
            assert(rows.take(0) =~= Seq::<TelegramFileView>::empty());
            assert(crate::text::views(ids@) =~= Seq::<Seq<char>>::empty());
        }
        while i < self.files.len()
            invariant
                i <= self.files.len(),
                rows == file_views(self.files@),
                crate::text::views(ids@) == file_ids_of(rows.take(i as int), post_id@, chat_id),
            decreases self.files.len() - i,
        {
            proof {
                assert(rows.take(i + 1).drop_last() =~= rows.take(i as int));
                assert(rows.take(i + 1).last() == rows[i as int]);
            }
            let file = &self.files[i];
            if file.chat_id == chat_id && same_text(file.post_id.as_str(), post_id) {
                let ghost before = crate::text::views(ids@);
                ids.push(file.file_id.clone());
                proof {
                    assert(crate::text::views(ids@) =~= before.push(rows[i as int].file_id));
                }
            }
            i += 1;
        }
        proof {
            assert(rows.take(rows.len() as int) =~= rows);
        }
        ids
    }
}

/// A file that is among the first rows is among all rows.
proof fn has_file_grows(
    files: Seq<TelegramFileView>,
    post_id: Seq<char>,
    chat_id: i64,
    unique_id: Seq<char>,
    k: int,
)
    requires
        0 <= k <= files.len(),
        has_file(files.take(k), post_id, chat_id, unique_id),
    ensures
        has_file(files, post_id, chat_id, unique_id),
    decreases files.len() - k,
{
    if k == files.len() {
        assert(files.take(k) =~= files);
    } else {
        assert(files.take(k + 1).drop_last() =~= files.take(k));
        has_file_grows(files, post_id, chat_id, unique_id, k + 1);
    }
}


/// A post that was recorded with a time counts as seen.
pub proof fn recorded_post_is_seen(
    ledger: LedgerView,
    chat_id: i64,
    post_id: Seq<char>,
    subreddit: Seq<char>,
    post_title: Seq<char>,
    seen_at: i64,
)
    ensures
        ledger.record_post(chat_id, post_id, subreddit, post_title, Some(seen_at)).is_post_seen(
            chat_id,
            post_id,
        ),
        match post_index(
            ledger.record_post(chat_id, post_id, subreddit, post_title, Some(seen_at)).posts,
            post_id,
            chat_id,
        ) {
            Some(i) => ledger.record_post(
                chat_id,
                post_id,
                subreddit,
                post_title,
                Some(seen_at),
            ).posts[i].seen_at is Some,
            None => false,
        },
{
    let key = post_key(post_id, chat_id);
    let after = ledger.record_post(chat_id, post_id, subreddit, post_title, Some(seen_at));
    first_index_is_first(ledger.posts, key);
    match post_index(ledger.posts, post_id, chat_id) {
        None => {
            let at = ledger.posts.len() as int;
            assert(after.posts[at].post_id == post_id);
            assert forall|j: int| 0 <= j < at implies !key(#[trigger] after.posts[j]) by {
                assert(after.posts[j] == ledger.posts[j]);
            }
            first_index_at(after.posts, key, at);
        },
        Some(i) => {
            assert(after.posts[i].post_id == post_id);
            assert forall|j: int| 0 <= j < i implies !key(#[trigger] after.posts[j]) by {
                assert(after.posts[j] == ledger.posts[j]);
            }
            first_index_at(after.posts, key, i);
        },
    }
}

/// Recording a post that was recorded with a time changes nothing: marking
/// a post as seen a second time is a write without effect.
pub proof fn second_record_changes_nothing(
    ledger: LedgerView,
    chat_id: i64,
    post_id: Seq<char>,
    subreddit: Seq<char>,
    post_title: Seq<char>,
    first: i64,
    second: Option<i64>,
)
    ensures
        ledger.record_post(chat_id, post_id, subreddit, post_title, Some(first)).record_post(
            chat_id,
            post_id,
            subreddit,
            post_title,
            second,
        ) == ledger.record_post(chat_id, post_id, subreddit, post_title, Some(first)),
{
    recorded_post_is_seen(ledger, chat_id, post_id, subreddit, post_title, first);
}

/// A post without a row for a chat does not count as seen by it.
pub proof fn unrecorded_post_is_not_seen(ledger: LedgerView, chat_id: i64, post_id: Seq<char>)
    requires
        post_index(ledger.posts, post_id, chat_id) is None,
    ensures
        !ledger.is_post_seen(chat_id, post_id),
{
    first_index_is_first(ledger.posts, post_key(post_id, chat_id));
    assert forall|i: int| 0 <= i < ledger.posts.len() implies !((#[trigger] ledger.posts[i]).post_id
        == post_id && ledger.posts[i].chat_id == chat_id && ledger.posts[i].seen_at is Some) by {
        assert(!post_key(post_id, chat_id)(ledger.posts[i]));
    }
}


/// Two tables of one length whose rows agree on `is_it` have their first
/// such row at the same place.
proof fn first_index_same<T>(a: Seq<T>, b: Seq<T>, is_it: spec_fn(T) -> bool)
    requires
        a.len() == b.len(),
        forall|j: int| 0 <= j < a.len() ==> is_it(#[trigger] a[j]) == is_it(b[j]),
    ensures
        first_index(a, is_it) == first_index(b, is_it),
{
    first_index_is_first(a, is_it);
    first_index_is_first(b, is_it);
    match first_index(a, is_it) {
        Some(i) => {
            assert(is_it(a[i]));
            assert forall|j: int| 0 <= j < i implies !is_it(#[trigger] b[j]) by {
                assert(!is_it(a[j]));
            }
            first_index_at(b, is_it, i);
        },
        None => {
            assert forall|j: int| 0 <= j < b.len() implies !is_it(#[trigger] b[j]) by {
                assert(!is_it(a[j]));
            }
        },
    }
}

/// A row that is found stays where it is when another row is added.
proof fn first_index_after_push<T>(rows: Seq<T>, row: T, is_it: spec_fn(T) -> bool)
    requires
        first_index(rows, is_it) is Some,
    ensures
        first_index(rows.push(row), is_it) == first_index(rows, is_it),
{
    assert(rows.push(row).drop_last() =~= rows);
}

/// A file's row is there exactly where some row has its post, chat and
/// unique id.
proof fn has_file_is_some_row(
    files: Seq<TelegramFileView>,
    post_id: Seq<char>,
    chat_id: i64,
    unique_id: Seq<char>,
)
    ensures
        has_file(files, post_id, chat_id, unique_id) <==> exists|j: int|
            0 <= j < files.len() && (#[trigger] files[j]).post_id == post_id && files[j].chat_id
                == chat_id && files[j].unique_id == unique_id,
    decreases files.len(),
{
    if files.len() > 0 {
        let before = files.drop_last();
        has_file_is_some_row(before, post_id, chat_id, unique_id);
        if has_file(files, post_id, chat_id, unique_id) {
            if has_file(before, post_id, chat_id, unique_id) {
                let j = choose|j: int|
                    0 <= j < before.len() && (#[trigger] before[j]).post_id == post_id
                        && before[j].chat_id == chat_id && before[j].unique_id == unique_id;
                assert(files[j] == before[j]);
            } else {
                assert(files[files.len() - 1].post_id == post_id);
            }
        }
        if exists|j: int|
            0 <= j < files.len() && (#[trigger] files[j]).post_id == post_id && files[j].chat_id
                == chat_id && files[j].unique_id == unique_id {
            let j = choose|j: int|
                0 <= j < files.len() && (#[trigger] files[j]).post_id == post_id && files[j].chat_id
                    == chat_id && files[j].unique_id == unique_id;
            if j < files.len() - 1 {
                assert(before[j] == files[j]);
            }
        }
    }
}

/// Every subscription that stays after an unsubscribe was there before, and
/// the ones that stay keep their order.
proof fn remaining_rows_were_there(subs: Seq<SubscriptionView>, chat_id: i64, pattern: Seq<char>)
    ensures
        forall|a: int|
            0 <= a < remaining(subs, chat_id, pattern).len() ==> exists|j: int|
                0 <= j < subs.len() && subs[j] == #[trigger] remaining(subs, chat_id, pattern)[a],
        forall|a: int, b: int|
            0 <= a < b < remaining(subs, chat_id, pattern).len() ==> exists|i: int, j: int|
                0 <= i < j < subs.len() && subs[i] == #[trigger] remaining(subs, chat_id, pattern)[a]
                    && subs[j] == #[trigger] remaining(subs, chat_id, pattern)[b],
    decreases subs.len(),
{
    if subs.len() > 0 {
        let before = subs.drop_last();
        let kept = remaining(subs, chat_id, pattern);
        let kept_before = remaining(before, chat_id, pattern);
        remaining_rows_were_there(before, chat_id, pattern);
        assert forall|a: int| 0 <= a < kept.len() implies exists|j: int|
            0 <= j < subs.len() && subs[j] == #[trigger] kept[a] by {
            if a < kept_before.len() {
                let j = choose|j: int| 0 <= j < before.len() && before[j] == kept_before[a];
                assert(subs[j] == kept[a]);
            } else {
                assert(subs[subs.len() - 1] == kept[a]);
            }
        }
        assert forall|a: int, b: int| 0 <= a < b < kept.len() implies exists|i: int, j: int|
            0 <= i < j < subs.len() && subs[i] == #[trigger] kept[a] && subs[j] == #[trigger] kept[b] by {
            if b < kept_before.len() {
                let (i, j) = choose|i: int, j: int|
                    0 <= i < j < before.len() && before[i] == kept_before[a] && before[j]
                        == kept_before[b];
                assert(subs[i] == kept[a] && subs[j] == kept[b]);
            } else {
                let i = choose|i: int| 0 <= i < before.len() && before[i] == kept_before[a];
                assert(subs[i] == kept[a] && subs[subs.len() - 1] == kept[b]);
            }
        }
    }
}

impl LedgerView {
    /// After `ensure_chat_exists` the chat has a row.
    pub proof fn ensured_chat_exists(self, chat_id: i64)
        ensures
            chat_index(self.ensure_chat_exists(chat_id).chats, chat_id) is Some,
    {
        let key = chat_key(chat_id);
        first_index_is_first(self.chats, key);
        if chat_index(self.chats, chat_id) is None {
            let after = self.chats.push(Chat { chat_id, repost_channel_id: None });
            assert forall|j: int| 0 <= j < self.chats.len() implies !key(#[trigger] after[j]) by {
                assert(after[j] == self.chats[j]);
            }
            first_index_at(after, key, self.chats.len() as int);
        }
    }

    /// Recording a post keeps what the tables guarantee.
    pub proof fn record_post_keeps_wf(
        self,
        chat_id: i64,
        post_id: Seq<char>,
        subreddit: Seq<char>,
        post_title: Seq<char>,
        seen_at: Option<i64>,
    )
        requires
            self.wf(),
        ensures
            self.record_post(chat_id, post_id, subreddit, post_title, seen_at).wf(),
    {
        let after = self.record_post(chat_id, post_id, subreddit, post_title, seen_at);
        let key = post_key(post_id, chat_id);
        first_index_is_first(self.posts, key);
        match post_index(self.posts, post_id, chat_id) {
            None => {
                let row = PostRecordView { post_id, chat_id, subreddit, seen_at, post_title };
                assert forall|i: int, j: int| 0 <= i < j < after.posts.len() implies !((
                #[trigger] after.posts[i]).post_id == (#[trigger] after.posts[j]).post_id
                    && after.posts[i].chat_id == after.posts[j].chat_id) by {
                    assert(after.posts[i] == self.posts[i]);
                    if j < self.posts.len() {
                        assert(after.posts[j] == self.posts[j]);
                    } else {
                        assert(!key(self.posts[i]));
                    }
                }
                assert forall|i: int| 0 <= i < after.files.len() implies after.knows_post(
                    (#[trigger] after.files[i]).chat_id,
                    after.files[i].post_id,
                ) by {
                    assert(self.knows_post(self.files[i].chat_id, self.files[i].post_id));
                    first_index_after_push(
                        self.posts,
                        row,
                        post_key(self.files[i].post_id, self.files[i].chat_id),
                    );
                }
            },
            Some(at) => {
                if self.posts[at].seen_at is None {
                    assert forall|i: int, j: int| 0 <= i < j < after.posts.len() implies !((
                    #[trigger] after.posts[i]).post_id == (#[trigger] after.posts[j]).post_id
                        && after.posts[i].chat_id == after.posts[j].chat_id) by {
                        assert(after.posts[i].post_id == self.posts[i].post_id);
                        assert(after.posts[j].post_id == self.posts[j].post_id);
                        assert(after.posts[i].chat_id == self.posts[i].chat_id);
                        assert(after.posts[j].chat_id == self.posts[j].chat_id);
                    }
                    assert forall|i: int| 0 <= i < after.files.len() implies after.knows_post(
                        (#[trigger] after.files[i]).chat_id,
                        after.files[i].post_id,
                    ) by {
                        assert(self.knows_post(self.files[i].chat_id, self.files[i].post_id));
                        let file_key = post_key(self.files[i].post_id, self.files[i].chat_id);
                        assert forall|j: int| 0 <= j < self.posts.len() implies file_key(
                            #[trigger] self.posts[j],
                        ) == file_key(after.posts[j]) by {
                            assert(after.posts[j].post_id == self.posts[j].post_id);
                            assert(after.posts[j].chat_id == self.posts[j].chat_id);
                        }
                        first_index_same(self.posts, after.posts, file_key);
                    }
                }
            },
        }
    }

    /// Adding a chat's row keeps what the tables guarantee.
    pub proof fn ensure_chat_keeps_wf(self, chat_id: i64)
        requires
            self.wf(),
        ensures
            self.ensure_chat_exists(chat_id).wf(),
    {
        let after = self.ensure_chat_exists(chat_id);
        let key = chat_key(chat_id);
        first_index_is_first(self.chats, key);
        if chat_index(self.chats, chat_id) is None {
            let row = Chat { chat_id, repost_channel_id: None };
            assert forall|i: int, j: int| 0 <= i < j < after.chats.len() implies (
            #[trigger] after.chats[i]).chat_id != (#[trigger] after.chats[j]).chat_id by {
                assert(after.chats[i] == self.chats[i]);
                if j < self.chats.len() {
                    assert(after.chats[j] == self.chats[j]);
                } else {
                    assert(!key(self.chats[i]));
                }
            }
            assert forall|i: int| 0 <= i < after.subscriptions.len() implies chat_index(
                after.chats,
                (#[trigger] after.subscriptions[i]).chat_id,
            ) is Some by {
                first_index_after_push(self.chats, row, chat_key(self.subscriptions[i].chat_id));
            }
        }
    }

    /// Subscribing keeps what the tables guarantee.
    pub proof fn subscribe_keeps_wf(self, chat_id: i64, args: SubscriptionArgsView)
        requires
            self.wf(),
        ensures
            self.subscribe(chat_id, args).wf(),
    {
        let known = self.ensure_chat_exists(chat_id);
        self.ensure_chat_keeps_wf(chat_id);
        self.ensured_chat_exists(chat_id);
        let after = self.subscribe(chat_id, args);
        let key = subscription_key(chat_id, args.subreddit);
        let subs = known.subscriptions;
        first_index_is_first(subs, key);
        let others = match subscription_index(subs, chat_id, args.subreddit) {
            Some(i) => subs.remove(i),
            None => subs,
        };
        // Every other row was a row before, its place in step with the others.
        let place = |a: int|
            match subscription_index(subs, chat_id, args.subreddit) {
                Some(i) => if a < i {
                    a
                } else {
                    a + 1
                },
                None => a,
            };
        assert forall|a: int| 0 <= a < others.len() implies 0 <= place(a) < subs.len() && others[a]
            == subs[place(a)] && !key(#[trigger] others[a]) by {
            match subscription_index(subs, chat_id, args.subreddit) {
                Some(i) => {
                    if key(subs[place(a)]) {
                        if place(a) < i {
                        } else {
                            assert(subs[i].chat_id == subs[place(a)].chat_id);
                            assert(subs[i].subreddit == subs[place(a)].subreddit);
                        }
                    }
                },
                None => {},
            }
        }
        assert forall|i: int, j: int| 0 <= i < j < after.subscriptions.len() implies !((
        #[trigger] after.subscriptions[i]).chat_id == (#[trigger] after.subscriptions[j]).chat_id
            && after.subscriptions[i].subreddit == after.subscriptions[j].subreddit) by {
            assert(after.subscriptions[i] == others[i]);
            assert(others[i] == subs[place(i)]);
            if j < others.len() {
                assert(after.subscriptions[j] == others[j]);
                assert(others[j] == subs[place(j)]);
                assert(place(i) < place(j));
            } else {
                assert(!key(others[i]));
            }
        }
        assert forall|i: int| 0 <= i < after.subscriptions.len() implies chat_index(
            after.chats,
            (#[trigger] after.subscriptions[i]).chat_id,
        ) is Some by {
            if i < others.len() {
                assert(after.subscriptions[i] == others[i]);
                assert(others[i] == subs[place(i)]);
            }
        }
    }

    /// Unsubscribing keeps what the tables guarantee.
    pub proof fn unsubscribe_keeps_wf(self, chat_id: i64, pattern: Seq<char>)
        requires
            self.wf(),
        ensures
            self.unsubscribe(chat_id, pattern).wf(),
    {
        let after = self.unsubscribe(chat_id, pattern);
        let subs = self.subscriptions;
        remaining_rows_were_there(subs, chat_id, pattern);
        assert forall|a: int, b: int| 0 <= a < b < after.subscriptions.len() implies !((
        #[trigger] after.subscriptions[a]).chat_id == (#[trigger] after.subscriptions[b]).chat_id
            && after.subscriptions[a].subreddit == after.subscriptions[b].subreddit) by {
            let (i, j) = choose|i: int, j: int|
                0 <= i < j < subs.len() && subs[i] == after.subscriptions[a] && subs[j]
                    == after.subscriptions[b];
            assert(!(subs[i].chat_id == subs[j].chat_id && subs[i].subreddit == subs[j].subreddit));
        }
        assert forall|a: int| 0 <= a < after.subscriptions.len() implies chat_index(
            after.chats,
            (#[trigger] after.subscriptions[a]).chat_id,
        ) is Some by {
            let j = choose|j: int| 0 <= j < subs.len() && subs[j] == after.subscriptions[a];
            assert(chat_index(self.chats, subs[j].chat_id) is Some);
        }
    }

    /// Registering a repost channel keeps what the tables guarantee.
    pub proof fn set_repost_channel_keeps_wf(self, chat_id: i64, repost_channel_id: i64)
        requires
            self.wf(),
        ensures
            self.set_repost_channel(chat_id, repost_channel_id).wf(),
    {
        let known = self.ensure_chat_exists(chat_id);
        self.ensure_chat_keeps_wf(chat_id);
        let after = self.set_repost_channel(chat_id, repost_channel_id);
        first_index_is_first(known.chats, chat_key(chat_id));
        match chat_index(known.chats, chat_id) {
            Some(at) => {
                assert forall|i: int, j: int| 0 <= i < j < after.chats.len() implies (
                #[trigger] after.chats[i]).chat_id != (#[trigger] after.chats[j]).chat_id by {
                    assert(after.chats[i].chat_id == known.chats[i].chat_id);
                    assert(after.chats[j].chat_id == known.chats[j].chat_id);
                }
                assert forall|i: int| 0 <= i < after.subscriptions.len() implies chat_index(
                    after.chats,
                    (#[trigger] after.subscriptions[i]).chat_id,
                ) is Some by {
                    let key = chat_key(known.subscriptions[i].chat_id);
                    assert forall|j: int| 0 <= j < known.chats.len() implies key(
                        #[trigger] known.chats[j],
                    ) == key(after.chats[j]) by {
                        assert(after.chats[j].chat_id == known.chats[j].chat_id);
                    }
                    first_index_same(known.chats, after.chats, key);
                }
            },
            None => {},
        }
    }

    /// Entering a file for a post that is known keeps what the tables guarantee.
    pub proof fn add_telegram_file_keeps_wf(
        self,
        post_id: Seq<char>,
        chat_id: i64,
        file_id: Seq<char>,
        unique_id: Seq<char>,
    )
        requires
            self.wf(),
            self.knows_post(chat_id, post_id),
        ensures
            self.add_telegram_file(post_id, chat_id, file_id, unique_id).wf(),
    {
        let after = self.add_telegram_file(post_id, chat_id, file_id, unique_id);
        has_file_is_some_row(self.files, post_id, chat_id, unique_id);
        if !has_file(self.files, post_id, chat_id, unique_id) {
            assert forall|i: int, j: int| 0 <= i < j < after.files.len() implies !((
            #[trigger] after.files[i]).post_id == (#[trigger] after.files[j]).post_id
                && after.files[i].chat_id == after.files[j].chat_id && after.files[i].unique_id
                == after.files[j].unique_id) by {
                assert(after.files[i] == self.files[i]);
                if j < self.files.len() {
                    assert(after.files[j] == self.files[j]);
                }
            }
            assert forall|i: int| 0 <= i < after.files.len() implies after.knows_post(
                (#[trigger] after.files[i]).chat_id,
                after.files[i].post_id,
            ) by {
                if i < self.files.len() {
                    assert(after.files[i] == self.files[i]);
                }
            }
        }
    }
}


/// The ledger never forgets: a post that counts as seen by a chat still does
/// after any post was recorded.
pub proof fn seen_stays_seen(
    ledger: LedgerView,
    seen_chat: i64,
    seen_post: Seq<char>,
    chat_id: i64,
    post_id: Seq<char>,
    subreddit: Seq<char>,
    post_title: Seq<char>,
    seen_at: Option<i64>,
)
    requires
        ledger.is_post_seen(seen_chat, seen_post),
    ensures
        ledger.record_post(chat_id, post_id, subreddit, post_title, seen_at).is_post_seen(
            seen_chat,
            seen_post,
        ),
{
    let after = ledger.record_post(chat_id, post_id, subreddit, post_title, seen_at);
    let at = choose|i: int|
        0 <= i < ledger.posts.len() && (#[trigger] ledger.posts[i]).post_id == seen_post
            && ledger.posts[i].chat_id == seen_chat && ledger.posts[i].seen_at is Some;
    first_index_is_first(ledger.posts, post_key(post_id, chat_id));
    assert(after.posts[at].post_id == seen_post && after.posts[at].chat_id == seen_chat
        && after.posts[at].seen_at is Some);
}

/// Subscriptions and the ledger of seen posts are independent: subscribing
/// and unsubscribing leave every row of the ledger as it is.
pub proof fn subscriptions_leave_history_alone(
    ledger: LedgerView,
    chat_id: i64,
    args: SubscriptionArgsView,
    pattern: Seq<char>,
)
    ensures
        ledger.subscribe(chat_id, args).posts == ledger.posts,
        ledger.unsubscribe(chat_id, pattern).posts == ledger.posts,
        ledger.subscribe(chat_id, args).files == ledger.files,
        ledger.unsubscribe(chat_id, pattern).files == ledger.files,
{
}

/// After a chat subscribed to a subreddit, its subscriptions hold exactly
/// one for that subreddit, with the settings that were asked for.
pub proof fn subscribed_is_listed(ledger: LedgerView, chat_id: i64, args: SubscriptionArgsView)
    requires
        ledger.wf(),
    ensures
        ({
            let after = ledger.subscribe(chat_id, args);
            let at = after.subscriptions.len() - 1;
            &&& subscription_index(after.subscriptions, chat_id, args.subreddit) == Some(at)
            &&& after.subscriptions[at] == (SubscriptionView {
                chat_id,
                subreddit: args.subreddit,
                limit: args.limit,
                time: args.time,
                filter: args.filter,
            })
        }),
{
    ledger.subscribe_keeps_wf(chat_id, args);
    let after = ledger.subscribe(chat_id, args);
    let at = after.subscriptions.len() - 1;
    let key = subscription_key(chat_id, args.subreddit);
    assert(key(after.subscriptions[at]));
    assert forall|j: int| 0 <= j < at implies !key(#[trigger] after.subscriptions[j]) by {
        if key(after.subscriptions[j]) {
            assert(after.subscriptions[j].chat_id == after.subscriptions[at].chat_id);
            assert(after.subscriptions[j].subreddit == after.subscriptions[at].subreddit);
        }
    }
    first_index_at(after.subscriptions, key, at);
}

} // verus!
