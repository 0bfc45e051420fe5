//! Holds the in-memory ledger against SQLite itself: the same requests are
//! put to both, and both must answer alike.

use rusqlite::{Connection, OptionalExtension};
use tgreddit::db::{like_match, DbError, Ledger};
use tgreddit::reddit::{Post, PostType, TopPostsTimePeriod};
use tgreddit::types::SubscriptionArgs;

const SCHEMA: &str = "
    create table chat(
        chat_id     integer primary key,
        repost_channel_id integer
    ) strict;
    create table subscription(
        chat_id     integer not null,
        subreddit   text not null,
        created_at  text not null,
        post_limit  integer,
        time        text,
        filter      text,
        primary key (subreddit, chat_id),
        foreign key (chat_id) references chat(chat_id)
    );
    create table post(
        post_id     text not null,
        chat_id     integer not null,
        subreddit   text not null,
        seen_at     text,
        post_title  text not null,
        primary key (post_id, chat_id)
    ) strict;
    create table telegram_file(
        id                  integer primary key autoincrement,
        post_id             text not null,
        chat_id             integer not null,
        telegram_file_id    text not null,
        telegram_file_unique_id    text not null,
        foreign key (post_id, chat_id) references post(post_id, chat_id),
        unique (post_id, chat_id, telegram_file_unique_id)
    ) strict;
";

struct Tables {
    conn: Connection,
}

impl Tables {
    fn new() -> Tables {
        let conn = Connection::open_in_memory().unwrap();
        conn.pragma_update(None, "foreign_keys", "ON").unwrap();
        conn.execute_batch(SCHEMA).unwrap();
        Tables { conn }
    }

    fn record_post(&self, chat_id: i64, post: &Post, seen_at: Option<i64>) {
        let seen_at = seen_at.map(|t| t.to_string());
        self.conn
            .execute(
                "insert or ignore into post (post_id, chat_id, subreddit, seen_at, post_title)
                 values (?1, ?2, ?3, ?4, ?5)",
                (&post.id, chat_id, &post.subreddit, &seen_at, &post.title),
            )
            .unwrap();
        self.conn
            .execute(
                "update post set seen_at = ?1
                 where post_id = ?2 and chat_id = ?3 and seen_at is null",
                (&seen_at, &post.id, chat_id),
            )
            .unwrap();
    }

    fn get_post_title(&self, chat_id: i64, post_id: &str) -> Option<String> {
        self.conn
            .query_row(
                "select post_title from post where post_id = ?1 and chat_id = ?2",
                (post_id, chat_id),
                |row| row.get(0),
            )
            .optional()
            .unwrap()
    }

    fn is_post_seen(&self, chat_id: i64, post: &Post) -> bool {
        self.conn
            .query_row(
                "select exists(select 1 from post
                 where post_id = ?1 and chat_id = ?2 and seen_at is not null)",
                (&post.id, chat_id),
                |row| row.get(0),
            )
            .unwrap()
    }

    fn existing_posts_for_subreddit(&self, chat_id: i64, subreddit: &str) -> bool {
        self.conn
            .query_row(
                "select exists(select 1 from post where chat_id = ?1 and subreddit = ?2)",
                (chat_id, subreddit),
                |row| row.get(0),
            )
            .unwrap()
    }

    fn ensure_chat_exists(&self, chat_id: i64) {
        let exists: bool = self
            .conn
            .query_row(
                "select exists(select 1 from chat where chat_id = ?1)",
                [chat_id],
                |row| row.get(0),
            )
            .unwrap();
        if !exists {
            self.conn
                .execute("insert into chat (chat_id) values (?1)", [chat_id])
                .unwrap();
        }
    }

    fn subscribe(&self, chat_id: i64, args: &SubscriptionArgs) {
        self.ensure_chat_exists(chat_id);
        self.conn
            .execute(
                "insert or replace into subscription
                 (chat_id, subreddit, post_limit, time, filter, created_at)
                 values (?1, ?2, ?3, ?4, ?5, 'now')",
                (
                    chat_id,
                    &args.subreddit,
                    args.limit,
                    args.time.map(|t| t.to_string()),
                    args.filter.map(|f| f.to_string()),
                ),
            )
            .unwrap();
    }

    fn unsubscribe(&self, chat_id: i64, subreddit: &str) -> Option<String> {
        self.conn
            .query_row(
                "delete from subscription
                 where chat_id = ?1 and subreddit like ?2
                 returning subreddit",
                (chat_id, subreddit),
                |row| row.get(0),
            )
            .optional()
            .unwrap()
    }

    fn subscriptions(&self, chat_id: Option<i64>) -> Vec<(i64, String, Option<u32>, Option<String>, Option<String>)> {
        let sql = match chat_id {
            Some(_) => {
                "select chat_id, subreddit, post_limit, time, filter from subscription
                 where chat_id = ?1"
            }
            None => {
                "select chat_id, subreddit, post_limit, time, filter from subscription
                 where ?1 is null"
            }
        };
        let mut stmt = self.conn.prepare(sql).unwrap();
        let rows = stmt
            .query_map([chat_id], |row| {
                Ok((row.get(0)?, row.get(1)?, row.get(2)?, row.get(3)?, row.get(4)?))
            })
            .unwrap();
        rows.map(|r| r.unwrap()).collect()
    }

    fn set_repost_channel(&self, chat_id: i64, channel: i64) {
        self.ensure_chat_exists(chat_id);
        self.conn
            .execute(
                "update chat set repost_channel_id = ?1 where chat_id = ?2",
                (channel, chat_id),
            )
            .unwrap();
    }

    /// `Ok(None)` without a row, `Err` for a row without a channel.
    fn get_repost_channel(&self, chat_id: i64) -> Result<Option<i64>, ()> {
        self.conn
            .query_row(
                "select repost_channel_id from chat where chat_id = ?1",
                [chat_id],
                |row| row.get::<_, i64>(0),
            )
            .optional()
            .map_err(|_| ())
    }

    fn add_telegram_file(&self, post_id: &str, chat_id: i64, file_id: &str, unique_id: &str) -> bool {
        self.conn
            .execute(
                "insert or ignore into telegram_file
                 (post_id, chat_id, telegram_file_id, telegram_file_unique_id)
                 values (?1, ?2, ?3, ?4)",
                (post_id, chat_id, file_id, unique_id),
            )
            .is_ok()
    }

    fn files(&self, post_id: &str, chat_id: i64) -> Vec<String> {
        let mut stmt = self
            .conn
            .prepare(
                "select telegram_file_id from telegram_file
                 where post_id = ?1 and chat_id = ?2 order by telegram_file.id",
            )
            .unwrap();
        let rows = stmt.query_map((post_id, chat_id), |row| row.get(0)).unwrap();
        rows.map(|r| r.unwrap()).collect()
    }

    fn like(&self, pattern: &str, text: &str) -> bool {
        self.conn
            .query_row("select ?1 like ?2", (text, pattern), |row| row.get(0))
            .unwrap()
    }
}

fn post(id: &str, subreddit: &str, title: &str) -> Post {
    Post {
        id: id.into(),
        created: 0,
        post_hint: None,
        subreddit: subreddit.into(),
        title: title.into(),
        is_self: false,
        is_video: false,
        is_gallery: None,
        gallery_data: None,
        media_metadata: None,
        ups: 0,
        permalink: "/r/x/".into(),
        url: "https://example.com".into(),
        post_type: PostType::Link,
    }
}

fn same_state(ledger: &Ledger, tables: &Tables, posts: &[Post], chats: &[i64], subreddits: &[&str]) {
    for chat in chats {
        for p in posts {
            assert_eq!(ledger.is_post_seen(*chat, p), tables.is_post_seen(*chat, p));
            assert_eq!(
                ledger.get_post_title(*chat, &p.id).ok(),
                tables.get_post_title(*chat, &p.id)
            );
            assert_eq!(
                ledger.get_telegram_files_for_post(&p.id, *chat),
                tables.files(&p.id, *chat)
            );
        }
        for s in subreddits {
            assert_eq!(
                ledger.existing_posts_for_subreddit(*chat, s),
                tables.existing_posts_for_subreddit(*chat, s)
            );
        }
        assert_eq!(
            ledger.get_repost_channel(*chat).map_err(|_| ()),
            tables.get_repost_channel(*chat)
        );
        let mine: Vec<_> = ledger
            .get_subscriptions_for_chat(*chat)
            .into_iter()
            .map(|s| {
                (
                    s.chat_id,
                    s.subreddit,
                    s.limit,
                    s.time.map(|t| t.to_string()),
                    s.filter.map(|f| f.to_string()),
                )
            })
            .collect();
        assert_eq!(mine, tables.subscriptions(Some(*chat)));
    }
    let all: Vec<_> = ledger
        .get_all_subscriptions()
        .into_iter()
        .map(|s| {
            (
                s.chat_id,
                s.subreddit,
                s.limit,
                s.time.map(|t| t.to_string()),
                s.filter.map(|f| f.to_string()),
            )
        })
        .collect();
    assert_eq!(all, tables.subscriptions(None));
}

#[test]
fn like_agrees_with_sqlite() {
    let tables = Tables::new();
    let patterns = [
        "", "%", "_", "a", "A", "aww", "AWW", "a%", "%a", "%a%", "a_c", "a%c", "%%", "_%", "%_",
        "a__", "aw%w", "é", "É", "%é", "z", "[", "{", "@", "`", "a%b%c", "___", "aw_",
    ];
    let texts = [
        "", "a", "A", "aww", "Aww", "AWW", "abc", "aXc", "ac", "awwducational", "é", "É", "aé", "z",
        "Z", "[", "{", "@", "`", "abcabc", "ab", "a%c", "a_c", "%", "_",
    ];
    for pattern in patterns {
        for text in texts {
            assert_eq!(
                like_match(pattern, text),
                tables.like(pattern, text),
                "pattern {pattern:?} on {text:?}"
            );
        }
    }
}

#[test]
fn posts_agree_with_sqlite() {
    let mut ledger = Ledger::new();
    let tables = Tables::new();
    let posts = [
        post("a", "aww", "first"),
        post("b", "aww", "second"),
        post("a", "pics", "same id, other feed"),
        post("c", "Aww", "third"),
    ];
    let chats = [1, 2, 3];
    let subreddits = ["aww", "pics", "Aww", "none"];
    same_state(&ledger, &tables, &posts, &chats, &subreddits);
    let steps: [(i64, usize, Option<i64>); 9] = [
        (1, 0, None),
        (1, 0, None),
        (2, 0, Some(10)),
        (1, 0, Some(20)),
        (1, 0, Some(30)),
        (1, 2, Some(40)),
        (2, 1, None),
        (3, 3, Some(50)),
        (2, 1, Some(60)),
    ];
    for (chat, which, seen_at) in steps {
        ledger.record_post(chat, &posts[which], seen_at);
        tables.record_post(chat, &posts[which], seen_at);
        same_state(&ledger, &tables, &posts, &chats, &subreddits);
    }
}

fn args(subreddit: &str, limit: Option<u32>) -> SubscriptionArgs {
    SubscriptionArgs {
        subreddit: subreddit.into(),
        limit,
        time: limit.map(|_| TopPostsTimePeriod::Week),
        filter: limit.map(|_| PostType::Video),
    }
}

#[test]
fn subscriptions_agree_with_sqlite() {
    let mut ledger = Ledger::new();
    let tables = Tables::new();
    let chats = [1, 2, 3];
    let subscribe = |ledger: &mut Ledger, chat: i64, a: SubscriptionArgs| {
        ledger.subscribe(chat, &a);
        tables.subscribe(chat, &a);
        same_state(ledger, &tables, &[], &chats, &[]);
    };
    subscribe(&mut ledger, 1, args("aww", None));
    subscribe(&mut ledger, 1, args("pics", Some(3)));
    subscribe(&mut ledger, 2, args("aww", Some(1)));
    subscribe(&mut ledger, 1, args("Aww", None));
    subscribe(&mut ledger, 1, args("aww", Some(7)));
    subscribe(&mut ledger, 1, args("awwducational", None));
    subscribe(&mut ledger, 2, args("videos", None));
    for (chat, pattern) in [(3, "aww"), (1, "nothing"), (1, "pics"), (1, "AWW"), (2, "%"), (1, "aww%"), (1, "%")] {
        let mine = ledger.unsubscribe(chat, pattern);
        let theirs = tables.unsubscribe(chat, pattern);
        assert_eq!(mine.clone().ok(), theirs, "unsubscribe {chat} from {pattern:?}");
        if theirs.is_none() {
            assert_eq!(mine, Err(DbError::NoSuchRow));
        }
        same_state(&ledger, &tables, &[], &chats, &[]);
    }
}

#[test]
fn chats_and_files_agree_with_sqlite() {
    let mut ledger = Ledger::new();
    let tables = Tables::new();
    let posts = [post("g", "pics", "gallery"), post("h", "pics", "other")];
    let chats = [1, 2];
    same_state(&ledger, &tables, &posts, &chats, &[]);
    ledger.ensure_chat_exists(1);
    tables.ensure_chat_exists(1);
    same_state(&ledger, &tables, &posts, &chats, &[]);
    ledger.set_repost_channel(2, -100);
    tables.set_repost_channel(2, -100);
    ledger.set_repost_channel(1, -200);
    tables.set_repost_channel(1, -200);
    ledger.set_repost_channel(2, -300);
    tables.set_repost_channel(2, -300);
    same_state(&ledger, &tables, &posts, &chats, &[]);

    assert_eq!(
        ledger.add_telegram_file("g", 1, "f0", "u0").is_ok(),
        tables.add_telegram_file("g", 1, "f0", "u0")
    );
    ledger.record_post(1, &posts[0], None);
    tables.record_post(1, &posts[0], None);
    ledger.record_post(2, &posts[1], Some(5));
    tables.record_post(2, &posts[1], Some(5));
    for (post_id, chat, file, unique) in [
        ("g", 1, "f1", "u1"),
        ("g", 1, "f2", "u2"),
        ("g", 1, "f3", "u1"),
        ("g", 2, "f4", "u4"),
        ("h", 2, "f5", "u1"),
        ("h", 1, "f6", "u6"),
        ("g", 1, "f1", "u7"),
    ] {
        assert_eq!(
            ledger.add_telegram_file(post_id, chat, file, unique).is_ok(),
            tables.add_telegram_file(post_id, chat, file, unique),
            "file {file} for {post_id} in {chat}"
        );
        same_state(&ledger, &tables, &posts, &chats, &[]);
    }
}
