//! The texts that the relay sends: captions, link messages, the subscription
//! list, and the buttons under a delivered post.

use crate::db::Recordable;
use crate::reddit::api::{format_subreddit_url, subreddit_url};
use crate::reddit::{opt_string_view, opt_view, Post};
use crate::text::{concat2, decimal, decimal_string, join, joined, trim_end, trimmed_end, views};
use crate::types::{
    ButtonCallbackData, ButtonCallbackDataView, Subscription, SubscriptionView, Video,
};
use vstd::prelude::*;

verus! {

/// What stands for one character in HTML text: `&lt;` for `<`, `&gt;` for
/// `>`, and every other character itself.
pub open spec fn escaped_char(c: char) -> Seq<char> {
    if c == '<' {
        "&lt;"@
    } else if c == '>' {
        "&gt;"@
    } else {
        seq![c]
    }
}

/// Text made safe for HTML, character by character.
pub open spec fn escaped(html: Seq<char>) -> Seq<char>
    decreases html.len(),
{
    if html.len() == 0 {
        Seq::empty()
    } else {
        escaped(html.drop_last()) + escaped_char(html.last())
    }
}

/// An HTML anchor to `href` whose label is `text`, escaped.
pub open spec fn anchor(href: Seq<char>, text: Seq<char>) -> Seq<char> {
    "<a href=\""@ + href + "\">"@ + escaped(text) + "</a>"@
}

/// The anchor to a subreddit's front page, labelled `/r/<subreddit>`.
pub open spec fn subreddit_link(subreddit: Seq<char>, base_url: Option<Seq<char>>) -> Seq<char> {
    anchor(subreddit_url(subreddit, base_url), "/r/"@ + subreddit)
}

/// The line under a post: the subreddit, then in brackets the link to the
/// comments and, where links are built on the feed source itself, the link to
/// the same page on the old layout, which is `old_url`.
pub open spec fn meta_html(post: Post, base_url: Option<Seq<char>>, old_url: Seq<char>) -> Seq<char> {
    let head = subreddit_link(post.subreddit@, base_url) + " ["@ + anchor(
        post.permalink_url(base_url),
        "comments"@,
    );
    match base_url {
        Some(_) => head + "]"@,
        None => head + ", "@ + anchor(old_url, "old"@) + "]"@,
    }
}

/// The caption of a delivered medium: the title, and under it the meta line.
pub open spec fn media_caption_html(post: Post, base_url: Option<Seq<char>>, old_url: Seq<char>) -> Seq<
    char,
> {
    post.title@ + "\n"@ + meta_html(post, base_url, old_url)
}

/// The message for a link post: the title as an anchor to the link, and under
/// it the meta line.
pub open spec fn link_message_html(post: Post, base_url: Option<Seq<char>>, old_url: Seq<char>) -> Seq<
    char,
> {
    anchor(post.url@, post.title@) + "\n"@ + meta_html(post, base_url, old_url)
}

/// The old-layout address that a text for `post` needs: the rewritten
/// permalink where links are built on the feed source, nothing otherwise.
/// `None` where it is needed and the permalink cannot be rewritten.
pub open spec fn old_url_needed(post: Post, base_url: Option<Seq<char>>) -> Option<Seq<char>> {
    match base_url {
        Some(_) => Some(Seq::empty()),
        None => post.old_permalink_url(),
    }
}

/// Makes text safe for HTML.
pub fn escape(html: &str) -> (out: String)
    ensures
        out@ == escaped(html@),
{
    let mut out = String::new();
    for c in iter: html.chars()
        invariant
            iter.seq() == html@,
            out@ == escaped(html@.take(iter.index())),
    {
        proof {
            let k = iter.index();
            assert(html@.take(k + 1).drop_last() =~= html@.take(k));
            assert(html@.take(k + 1).last() == c);
        }
        if c == '<' {
            out.push_str("&lt;");
        } else if c == '>' {
            out.push_str("&gt;");
        } else {
            out.push(c);
        }
    }
    proof {
        assert(html@.take(html@.len() as int) =~= html@);
    }
    out
}

/// Writes an HTML anchor to `href` that is labelled `text`. Only the label is
/// escaped.
pub fn format_html_anchor(href: &str, text: &str) -> (out: String)
    ensures
        out@ == anchor(href@, text@),
{
    let mut out = String::new();
    out.push_str("<a href=\"");
    out.push_str(href);
    out.push_str("\">");
    out.push_str(escape(text).as_str());
    out.push_str("</a>");
    proof {
        assert(out@ =~= anchor(href@, text@));
    }
    out
}

/// Writes the anchor to a subreddit's front page.
pub fn format_subreddit_link(subreddit: &str, base_url: Option<&str>) -> (out: String)
    ensures
        out@ == subreddit_link(subreddit@, opt_view(base_url)),
{
    let url = format_subreddit_url(subreddit, base_url);
    let label = concat2("/r/", subreddit);
    format_html_anchor(url.as_str(), label.as_str())
}

/// The meta line for a post whose old-layout address, where one is needed,
/// is already at hand.
pub fn meta_html_with(post: &Post, links_base_url: Option<&str>, old_url: &str) -> (out: String)
    ensures
        out@ == meta_html(*post, opt_view(links_base_url), old_url@),
{
    let mut out = format_subreddit_link(post.subreddit.as_str(), links_base_url);
    let permalink = post.format_permalink_url(links_base_url);
    out.push_str(" [");
    out.push_str(format_html_anchor(permalink.as_str(), "comments").as_str());
    // With another site for the links, a link to the old layout makes no sense.
    match links_base_url {
        Some(_) => {
            out.push_str("]");
        },
        None => {
            out.push_str(", ");
            out.push_str(format_html_anchor(old_url, "old").as_str());
            out.push_str("]");
        },
    }
    proof {
        assert(out@ =~= meta_html(*post, opt_view(links_base_url), old_url@));
    }
    out
}

/// The meta line of a post. Where links are built on the feed source, the
/// permalink must allow the old-layout address.
pub fn format_meta_html(post: &Post, links_base_url: Option<&str>) -> (out: String)
    requires
        old_url_needed(*post, opt_view(links_base_url)) is Some,
    ensures
        Some(out@) == match old_url_needed(*post, opt_view(links_base_url)) {
            Some(old) => Some(meta_html(*post, opt_view(links_base_url), old)),
            None => None,
        },
{
    match links_base_url {
        Some(_) => meta_html_with(post, links_base_url, ""),
        None => {
            let old = post.format_old_permalink_url();
            meta_html_with(post, links_base_url, old.as_str())
        },
    }
}

/// What `format_media_caption_html` gives, and `None` where the old-layout
/// address that the caption needs cannot be had.
pub open spec fn media_caption_of(post: Post, base_url: Option<Seq<char>>) -> Option<Seq<char>> {
    match old_url_needed(post, base_url) {
        Some(old) => Some(media_caption_html(post, base_url, old)),
        None => None,
    }
}

/// What `format_link_message_html` gives, and `None` where the old-layout
/// address that the message needs cannot be had.
pub open spec fn link_message_of(post: Post, base_url: Option<Seq<char>>) -> Option<Seq<char>> {
    match old_url_needed(post, base_url) {
        Some(old) => Some(link_message_html(post, base_url, old)),
        None => None,
    }
}

/// The caption of a delivered medium. Where links are built on the feed
/// source, the permalink must allow the old-layout address;
/// `try_format_media_caption_html` tests that first.
pub fn format_media_caption_html(post: &Post, links_base_url: Option<&str>) -> (out: String)
    requires
        media_caption_of(*post, opt_view(links_base_url)) is Some,
    ensures
        Some(out@) == media_caption_of(*post, opt_view(links_base_url)),
{
    let meta = format_meta_html(post, links_base_url);
    let mut out = post.title.clone();
    out.push_str("\n");
    out.push_str(meta.as_str());
    proof {
        let old = old_url_needed(*post, opt_view(links_base_url))->0;
        assert(out@ =~= media_caption_html(*post, opt_view(links_base_url), old));
    }
    out
}

/// The caption of a delivered medium, or `None` where the post's permalink
/// gives no address on the old layout although the caption would link to it.
pub fn try_format_media_caption_html(post: &Post, links_base_url: Option<&str>) -> (out: Option<String>)
    ensures
        opt_string_view(out) == media_caption_of(*post, opt_view(links_base_url)),
{
    if links_base_url.is_none() && post.try_format_old_permalink_url().is_none() {
        return None;
    }
    Some(format_media_caption_html(post, links_base_url))
}

/// The caption of a video fetched from a plain link: its title, and under it
/// an anchor to the link.
pub open spec fn link_video_caption_html(video: Video) -> Seq<char> {
    video.title@ + "\n"@ + anchor(video.url@, "video link"@)
}

/// Writes the caption of a video fetched from a plain link.
pub fn format_link_video_caption_html(video: &Video) -> (out: String)
    ensures
        out@ == link_video_caption_html(*video),
{
    let meta = format_html_anchor(video.url.as_str(), "video link");
    let mut out = video.title.clone();
    out.push_str("\n");
    out.push_str(meta.as_str());
    out
}

/// One button under a delivered post.
#[derive(Debug, Clone, PartialEq, Eq)]
pub struct RepostButton {
    pub text: String,
    pub data: ButtonCallbackData,
}

/// The row of buttons under a delivered post: one that reposts it with its
/// title, one that reposts it without.
pub open spec fn repost_buttons(post_id: Seq<char>, is_gallery: bool) -> Seq<
    (Seq<char>, ButtonCallbackDataView),
> {
    seq![
        ("Post"@, ButtonCallbackDataView { post_id, copy_caption: true, is_gallery }),
        ("Post (no title)"@, ButtonCallbackDataView { post_id, copy_caption: false, is_gallery }),
    ]
}

/// A row of buttons as plain values.
pub open spec fn buttons_view(row: Seq<RepostButton>) -> Seq<(Seq<char>, ButtonCallbackDataView)> {
    row.map_values(|b: RepostButton| (b.text@, b.data@))
}

/// Lays out the row of buttons under a delivery. `is_gallery` tells whether
/// the delivery was a group of media, whose files are kept for the repost.
pub fn format_repost_buttons_gallery<T: Recordable>(post: &T, is_gallery: bool) -> (row: Vec<
    RepostButton,
>)
    ensures
        buttons_view(row@) == repost_buttons(post.record_id(), is_gallery),
{
    let mut row: Vec<RepostButton> = Vec::new();
    row.push(
        RepostButton {
            text: "Post".to_owned(),
            data: ButtonCallbackData { post_id: post.id().to_owned(), copy_caption: true, is_gallery },
        },
    );
    row.push(
        RepostButton {
            text: "Post (no title)".to_owned(),
            data: ButtonCallbackData { post_id: post.id().to_owned(), copy_caption: false, is_gallery },
        },
    );
    proof {
        assert(buttons_view(row@) =~= repost_buttons(post.record_id(), is_gallery));
    }
    row
}

/// Lays out the row of buttons under a delivery of one message.
pub fn format_repost_buttons<T: Recordable>(post: &T) -> (row: Vec<RepostButton>)
    ensures
        buttons_view(row@) == repost_buttons(post.record_id(), false),
{
    format_repost_buttons_gallery(post, false)
}

/// The message for a link post. Where links are built on the feed source, the
/// permalink must allow the old-layout address;
/// `try_format_link_message_html` tests that first.
pub fn format_link_message_html(post: &Post, links_base_url: Option<&str>) -> (out: String)
    requires
        link_message_of(*post, opt_view(links_base_url)) is Some,
    ensures
        Some(out@) == link_message_of(*post, opt_view(links_base_url)),
{
    let mut out = format_html_anchor(post.url.as_str(), post.title.as_str());
    let meta = format_meta_html(post, links_base_url);
    out.push_str("\n");
    out.push_str(meta.as_str());
    proof {
        let old = old_url_needed(*post, opt_view(links_base_url))->0;
        assert(out@ =~= link_message_html(*post, opt_view(links_base_url), old));
    }
    out
}

/// The message for a link post, or `None` where the post's permalink gives no
/// address on the old layout although the message would link to it.
pub fn try_format_link_message_html(post: &Post, links_base_url: Option<&str>) -> (out: Option<String>)
    ensures
        opt_string_view(out) == link_message_of(*post, opt_view(links_base_url)),
{
    if links_base_url.is_none() && post.try_format_old_permalink_url().is_none() {
        return None;
    }
    Some(format_link_message_html(post, links_base_url))
}

/// The overrides of a subscription as they are listed: window, limit and
/// filter, each only where it is set, in that order.
pub open spec fn subscription_args(sub: SubscriptionView) -> Seq<Seq<char>> {
    let time = match sub.time {
        Some(t) => seq!["time="@ + t.name()],
        None => Seq::empty(),
    };
    let limit = match sub.limit {
        Some(l) => seq!["limit="@ + decimal(l as nat)],
        None => Seq::empty(),
    };
    let filter = match sub.filter {
        Some(f) => seq!["filter="@ + f.name()],
        None => Seq::empty(),
    };
    time + limit + filter
}

/// One line of the subscription list: the subreddit and, in parentheses, its
/// overrides separated by commas. Whitespace at the end of the line is cut, so
/// a subscription without overrides is listed by its name alone.
pub open spec fn subscription_line(sub: SubscriptionView) -> Seq<char> {
    let args = subscription_args(sub);
    let args_str = if args.len() > 0 {
        "("@ + joined(args, ", "@) + ")"@
    } else {
        Seq::empty()
    };
    trimmed_end(sub.subreddit + " "@ + args_str)
}

/// The subscription list: one line for each subscription, or a notice that
/// there is none.
pub open spec fn subscription_list(subs: Seq<SubscriptionView>) -> Seq<char> {
    if subs.len() == 0 {
        "No subscriptions"@
    } else {
        joined(subs.map_values(|s: SubscriptionView| subscription_line(s)), "\n"@)
    }
}

/// Formats one line of the subscription list.
pub fn format_subscription(sub: &Subscription) -> (line: String)
    ensures
        line@ == subscription_line(sub@),
{
    let mut args: Vec<String> = Vec::new();
    if let Some(time) = sub.time {
        args.push(concat2("time=", time.as_str()));
    }
    if let Some(limit) = sub.limit {
        args.push(concat2("limit=", decimal_string(limit as u64).as_str()));
    }
    if let Some(filter) = sub.filter {
        args.push(concat2("filter=", filter.as_str()));
    }
    proof {
        assert(views(args@) =~= subscription_args(sub@));
    }
    let mut line = sub.subreddit.clone();
    line.push_str(" ");
    if args.len() > 0 {
        line.push_str("(");
        line.push_str(join(&args, ", ").as_str());
        line.push_str(")");
    }
    proof {
        let a = subscription_args(sub@);
        if a.len() > 0 {
            assert(line@ =~= sub.subreddit@ + " "@ + ("("@ + joined(a, ", "@) + ")"@));
        } else {
            assert(line@ =~= sub.subreddit@ + " "@ + Seq::<char>::empty());
        }
    }
    trim_end(line.as_str())
}

/// `Itertools::join` of the `itertools` crate, on the strings of a vector: the
/// first element, then for each further one the separator and the element.
#[verifier::external_body]
fn join_lines(lines: &Vec<String>, sep: &str) -> (out: String)
    ensures
        out@ == joined(views(lines@), sep@),
{
    itertools::Itertools::join(&mut lines.iter(), sep)
}

/// The views of a slice of subscriptions.
pub open spec fn subscription_views(subs: Seq<Subscription>) -> Seq<SubscriptionView> {
    subs.map_values(|s: Subscription| s@)
}

/// Writes the list of a chat's subscriptions.
pub fn format_subscription_list(post: &[Subscription]) -> (out: String)
    ensures
        out@ == subscription_list(subscription_views(post@)),
{
    if post.len() == 0 {
        return "No subscriptions".to_owned();
    }
    let mut lines: Vec<String> = Vec::new();
    let mut i: usize = 0;
    while i < post.len()
        invariant
            i <= post.len(),
            lines.len() == i,
            forall|k: int| 0 <= k < i ==> (#[trigger] lines@[k])@ == subscription_line(post@[k]@),
        decreases post.len() - i,
    {
        lines.push(format_subscription(&post[i]));
        i += 1;
    }
    proof {
        assert(views(lines@) =~= subscription_views(post@).map_values(
            |s: SubscriptionView| subscription_line(s),
        ));
    }
    join_lines(&lines, "\n")
}

} // verus!
