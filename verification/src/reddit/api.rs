//! Addresses on the feed source, and the requests that fetch from it.

use crate::reddit::{opt_string_view, opt_view, Post, TopPostsTimePeriod};
use crate::text::{concat2, concat3, decimal, decimal_string};
use vstd::prelude::*;

verus! {

/// The feed source.
pub const REDDIT_BASE_URL: &'static str = "https://www.reddit.com";

/// The host that serves the old layout of the same pages.
pub const OLD_REDDIT_HOST: &'static str = "old.reddit.com";

/// The base that links are built on: the given one, or the feed source itself.
pub open spec fn base_or_default(base_url: Option<Seq<char>>) -> Seq<char> {
    match base_url {
        Some(base) => base,
        None => REDDIT_BASE_URL@,
    }
}

/// The address of a subreddit's front page under a base.
pub open spec fn subreddit_url(subreddit: Seq<char>, base_url: Option<Seq<char>>) -> Seq<char> {
    base_or_default(base_url) + ("/r/"@ + subreddit)
}

/// Puts `path` behind the base, which is the feed source unless another is given.
pub fn format_url_from_path(path: &str, base_url: Option<&str>) -> (url: String)
    ensures
        url@ == base_or_default(opt_view(base_url)) + path@,
{
    let base = match base_url {
        Some(u) => u,
        None => REDDIT_BASE_URL,
    };
    concat2(base, path)
}

/// The address of a subreddit's front page under the base.
pub fn format_subreddit_url(subreddit: &str, base_url: Option<&str>) -> (url: String)
    ensures
        url@ == subreddit_url(subreddit@, opt_view(base_url)),
{
    let path = concat2("/r/", subreddit);
    format_url_from_path(path.as_str(), base_url)
}

/// What the `url` crate makes of the address `url` once its host is replaced by
/// `host`: the new address in its normal form, or `None` where `url` is no
/// absolute address or cannot carry that host.
pub uninterp spec fn url_with_host(url: Seq<char>, host: Seq<char>) -> Option<Seq<char>>;

/// What the `url` crate makes of `reference` read against the address `base`:
/// the resolved address in its normal form, or `None` where either does not parse.
pub uninterp spec fn url_joined(base: Seq<char>, reference: Seq<char>) -> Option<Seq<char>>;

/// `Url::parse`, `Url::set_host` and the conversion of a `Url` to `String`, all
/// of the `url` crate. Nothing is claimed of the outcome but that it is the one
/// named `url_with_host`: a failure of either step gives `None`.
#[verifier::external_body]
fn with_host(url: &str, host: &str) -> (out: Option<String>)
    ensures
        opt_string_view(out) == url_with_host(url@, host@),
{
    let mut parsed = url::Url::parse(url).ok()?;
    parsed.set_host(Some(host)).ok()?;
    Some(String::from(parsed))
}

/// `Url::parse`, `Url::join` and the conversion of a `Url` to `String`, all of
/// the `url` crate. Nothing is claimed of the outcome but that it is the one
/// named `url_joined`: a failure of either step gives `None`.
#[verifier::external_body]
fn join_url(base: &str, reference: &str) -> (out: Option<String>)
    ensures
        opt_string_view(out) == url_joined(base@, reference@),
{
    let parsed = url::Url::parse(base).ok()?;
    parsed.join(reference).ok().map(String::from)
}

/// The same page on the old layout, where the address can be rewritten.
pub fn try_to_old_reddit_url(url: &str) -> (old: Option<String>)
    ensures
        opt_string_view(old) == url_with_host(url@, OLD_REDDIT_HOST@),
{
    match with_host(url, OLD_REDDIT_HOST) {
        Some(_) => Some(to_old_reddit_url(url)),
        None => None,
    }
}

/// The same page on the old layout. The address must be one that can be
/// rewritten; `try_to_old_reddit_url` tests that first.
pub fn to_old_reddit_url(url: &str) -> (old: String)
    requires
        url_with_host(url@, OLD_REDDIT_HOST@) is Some,
    ensures
        Some(old@) == url_with_host(url@, OLD_REDDIT_HOST@),
{
    match with_host(url, OLD_REDDIT_HOST) {
        Some(old) => old,
        None => String::new(),
    }
}

impl Post {
    /// The address of the post's comment page under a base.
    pub open spec fn permalink_url(self, base_url: Option<Seq<char>>) -> Seq<char> {
        base_or_default(base_url) + self.permalink@
    }

    /// The address of the post's comment page on the old layout, if the
    /// permalink gives an address that can be rewritten.
    pub open spec fn old_permalink_url(self) -> Option<Seq<char>> {
        url_with_host(self.permalink_url(None), OLD_REDDIT_HOST@)
    }

    /// The address of the post's comment page under the base.
    pub fn format_permalink_url(&self, base_url: Option<&str>) -> (url: String)
        ensures
            url@ == self.permalink_url(opt_view(base_url)),
    {
        format_url_from_path(self.permalink.as_str(), base_url)
    }

    /// The comment page on the old layout. The permalink must give an address
    /// that can be rewritten; `try_format_old_permalink_url` tests that first.
    pub fn format_old_permalink_url(&self) -> (url: String)
        requires
            self.old_permalink_url() is Some,
        ensures
            Some(url@) == self.old_permalink_url(),
    {
        let url = self.format_permalink_url(None);
        to_old_reddit_url(url.as_str())
    }

    /// The comment page on the old layout, where the permalink allows it.
    pub fn try_format_old_permalink_url(&self) -> (url: Option<String>)
        ensures
            opt_string_view(url) == self.old_permalink_url(),
    {
        let new_url = self.format_permalink_url(None);
        match try_to_old_reddit_url(new_url.as_str()) {
            Some(_) => Some(self.format_old_permalink_url()),
            None => None,
        }
    }
}

/// One GET request to the feed source: the address and the query parameters
/// in the order they are sent.
#[derive(Debug, Clone)]
pub struct Request {
    pub url: String,
    pub query: Vec<(String, String)>,
}

impl Request {
    /// The address and the query as plain text.
    pub open spec fn view(self) -> (Seq<char>, Seq<(Seq<char>, Seq<char>)>) {
        (self.url@, query_view(self.query@))
    }
}

/// The path of a subreddit's listing of top posts.
pub open spec fn top_posts_path_of(subreddit: Seq<char>) -> Seq<char> {
    "/r/"@ + subreddit + "/top.json"@
}

/// The path of a subreddit's description.
pub open spec fn about_path_of(subreddit: Seq<char>) -> Seq<char> {
    "/r/"@ + subreddit + "/about.json"@
}

/// The query that asks a listing for `limit` posts of the window `time`.
pub open spec fn top_posts_query_of(limit: u32, time: TopPostsTimePeriod) -> Seq<(Seq<char>, Seq<char>)> {
    seq![("limit"@, decimal(limit as nat)), ("t"@, time.name())]
}

/// The query that asks for one post by its id.
pub open spec fn link_query_of(link_id: Seq<char>) -> Seq<(Seq<char>, Seq<char>)> {
    seq![("id"@, "t3_"@ + link_id)]
}

/// A query as plain text.
pub open spec fn query_view(query: Seq<(String, String)>) -> Seq<(Seq<char>, Seq<char>)> {
    query.map_values(|p: (String, String)| (p.0@, p.1@))
}

/// The request to the address that `path` resolves to on the feed source,
/// with the given query; none where the path resolves to no address.
pub open spec fn request_to(path: Seq<char>, query: Seq<(Seq<char>, Seq<char>)>) -> Option<
    (Seq<char>, Seq<(Seq<char>, Seq<char>)>),
> {
    match url_joined(REDDIT_BASE_URL@, path) {
        Some(url) => Some((url, query)),
        None => None,
    }
}

/// The view of a request that may be missing.
pub open spec fn request_view(r: Option<Request>) -> Option<(Seq<char>, Seq<(Seq<char>, Seq<char>)>)> {
    match r {
        Some(req) => Some(req.view()),
        None => None,
    }
}

/// The path of a subreddit's listing of top posts.
pub fn top_posts_path(subreddit: &str) -> (path: String)
    ensures
        path@ == top_posts_path_of(subreddit@),
{
    concat3("/r/", subreddit, "/top.json")
}

/// The path of a subreddit's description.
pub fn about_path(subreddit: &str) -> (path: String)
    ensures
        path@ == about_path_of(subreddit@),
{
    concat3("/r/", subreddit, "/about.json")
}

/// The query that asks a listing for `limit` posts of the window `time`.
pub fn top_posts_query(limit: u32, time: &TopPostsTimePeriod) -> (query: Vec<(String, String)>)
    ensures
        query_view(query@) == top_posts_query_of(limit, *time),
{
    let mut query: Vec<(String, String)> = Vec::new();
    query.push(("limit".to_owned(), decimal_string(limit as u64)));
    query.push(("t".to_owned(), time.to_string()));
    proof {
        assert(query_view(query@) =~= top_posts_query_of(limit, *time));
    }
    query
}

/// The query that asks for one post by its id.
pub fn link_query(link_id: &str) -> (query: Vec<(String, String)>)
    ensures
        query_view(query@) == link_query_of(link_id@),
{
    let mut query: Vec<(String, String)> = Vec::new();
    query.push(("id".to_owned(), concat2("t3_", link_id)));
    proof {
        assert(query_view(query@) =~= link_query_of(link_id@));
    }
    query
}

/// Lays out the request to a path on the feed source; `None` where the path
/// resolves to no address.
pub fn request(path: &str, query: Vec<(String, String)>) -> (request: Option<Request>)
    ensures
        request_view(request) == request_to(path@, query_view(query@)),
{
    match join_url(REDDIT_BASE_URL, path) {
        Some(url) => Some(Request { url, query }),
        None => None,
    }
}

/// Lays out the request for a subreddit's top posts: `limit` posts of the
/// window `time`. `None` where the subreddit's name gives no address.
pub fn top_posts_request(subreddit: &str, limit: u32, time: &TopPostsTimePeriod) -> (request: Option<
    Request,
>)
    ensures
        request_view(request) == request_to(
            top_posts_path_of(subreddit@),
            top_posts_query_of(limit, *time),
        ),
{
    request(top_posts_path(subreddit).as_str(), top_posts_query(limit, time))
}

/// Lays out the request for one post by its id.
pub fn link_request(link_id: &str) -> (request: Option<Request>)
    ensures
        request_view(request) == request_to("/api/info.json"@, link_query_of(link_id@)),
{
    request("/api/info.json", link_query(link_id))
}

/// Lays out the request for a subreddit's description; `None` where the
/// subreddit's name gives no address.
pub fn about_request(subreddit: &str) -> (request: Option<Request>)
    ensures
        request_view(request) == request_to(about_path_of(subreddit@), Seq::empty()),
{
    let query: Vec<(String, String)> = Vec::new();
    proof {
        assert(query_view(query@) =~= Seq::<(Seq<char>, Seq<char>)>::empty());
    }
    request(about_path(subreddit).as_str(), query)
}

/// What the answer to a description request means, by its HTTP status.
#[derive(Debug, Clone, Copy, PartialEq, Eq, Structural)]
pub enum AboutStatus {
    /// The source reported a client or server error.
    HttpError,
    /// The source redirected: it has no subreddit of that name.
    NoSuchSubreddit,
    /// The body holds the description.
    Description,
}

/// A status from 400 to 599 is an error; 302 means that the subreddit does not
/// exist (the source redirects to its search page); any other status carries
/// the description.
pub open spec fn about_status_of(status: u16) -> AboutStatus {
    if 400 <= status <= 599 {
        AboutStatus::HttpError
    } else if status == 302 {
        AboutStatus::NoSuchSubreddit
    } else {
        AboutStatus::Description
    }
}

/// Reads the HTTP status of the answer to a description request.
pub fn about_status(status: u16) -> (meaning: AboutStatus)
    ensures
        meaning == about_status_of(status),
{
    if status >= 400 && status <= 599 {
        AboutStatus::HttpError
    } else if status == 302 {
        AboutStatus::NoSuchSubreddit
    } else {
        AboutStatus::Description
    }
}

} // verus!
