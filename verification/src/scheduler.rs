//! The poll cycle: which fetched posts are new for a chat, which of them are
//! delivered, and what the ledger holds afterwards.

use crate::config::Config;
use crate::db::{
    first_index_is_first, first_index_none, post_index, post_key, recorded_post_is_seen,
    seen_stays_seen, unrecorded_post_is_not_seen, Ledger, LedgerView, PostRecordView,
};
use crate::reddit::{Post, PostType};
use crate::types::{Subscription, SubscriptionView};
use vstd::prelude::*;

verus! {

/// What happens to one fetched post.
#[derive(Debug, Clone, Copy, PartialEq, Eq, Structural)]
pub enum NewnessAction {
    /// Nothing: the post is filtered out, or was seen before.
    Skip,
    /// The post is recorded as seen and not delivered.
    MarkSeen,
    /// The post is recorded as seen and then delivered. It stays recorded
    /// whether the delivery succeeds or not, so that a post that cannot be
    /// delivered is not tried again on every poll.
    Deliver,
}

/// Whether a filter lets a kind of post through: no filter lets everything
/// through, a filter only its own kind.
pub open spec fn passes(filter: Option<PostType>, kind: PostType) -> bool {
    match filter {
        Some(f) => f == kind,
        None => true,
    }
}

/// What happens to a fetched post of the given kind: it is skipped where the
/// filter does not let it through or where it was seen before; otherwise it
/// is recorded, and delivered unless this poll only records.
pub open spec fn newness_action_of(
    filter: Option<PostType>,
    kind: PostType,
    seen: bool,
    only_mark_seen: bool,
) -> NewnessAction {
    if !passes(filter, kind) || seen {
        NewnessAction::Skip
    } else if only_mark_seen {
        NewnessAction::MarkSeen
    } else {
        NewnessAction::Deliver
    }
}

/// Whether a filter lets a kind of post through.
pub fn passes_filter(filter: Option<PostType>, kind: PostType) -> (through: bool)
    ensures
        through == passes(filter, kind),
{
    match filter {
        Some(f) => f == kind,
        None => true,
    }
}

/// Decides what happens to one fetched post.
pub fn newness_action(filter: Option<PostType>, kind: PostType, seen: bool, only_mark_seen: bool) -> (action:
    NewnessAction)
    ensures
        action == newness_action_of(filter, kind, seen, only_mark_seen),
{
    if !passes_filter(filter, kind) || seen {
        NewnessAction::Skip
    } else if only_mark_seen {
        NewnessAction::MarkSeen
    } else {
        NewnessAction::Deliver
    }
}

/// Whether a poll only records what it finds: it is the first poll of the
/// subreddit for the chat, and first polls are set to skip sending.
pub fn only_mark_seen(has_existing_posts: bool, skip_initial_send: bool) -> (only: bool)
    ensures
        only == (!has_existing_posts && skip_initial_send),
{
    !has_existing_posts && skip_initial_send
}

/// The ledger after one fetched post was checked at the time `now`, and
/// whether the post is to be delivered.
pub open spec fn newness_outcome(
    ledger: LedgerView,
    chat_id: i64,
    filter: Option<PostType>,
    post: Post,
    only_mark_seen: bool,
    now: i64,
) -> (LedgerView, bool) {
    match newness_action_of(filter, post.post_type, ledger.is_post_seen(chat_id, post.id@), only_mark_seen) {
        NewnessAction::Skip => (ledger, false),
        NewnessAction::MarkSeen => (
            ledger.record_post(chat_id, post.id@, post.subreddit@, post.title@, Some(now)),
            false,
        ),
        NewnessAction::Deliver => (
            ledger.record_post(chat_id, post.id@, post.subreddit@, post.title@, Some(now)),
            true,
        ),
    }
}

/// Checks one fetched post against the ledger at the time `now`: records it
/// where it is new and tells whether it is to be delivered.
pub fn check_post_newness(
    ledger: &mut Ledger,
    chat_id: i64,
    filter: Option<PostType>,
    post: &Post,
    only_mark_seen: bool,
    now: i64,
) -> (deliver: bool)
    ensures
        (final(ledger)@, deliver) == newness_outcome(
            old(ledger)@,
            chat_id,
            filter,
            *post,
            only_mark_seen,
            now,
        ),
        old(ledger)@.wf() ==> final(ledger)@.wf(),
{
    let seen = ledger.is_post_seen(chat_id, post);
    match newness_action(filter, post.post_type, seen, only_mark_seen) {
        NewnessAction::Skip => false,
        NewnessAction::MarkSeen => {
            ledger.record_post(chat_id, post, Some(now));
            false
        },
        NewnessAction::Deliver => {
            // The post is recorded before it is handed on, and stays recorded
            // if handling it fails.
            ledger.record_post(chat_id, post, Some(now));
            true
        },
    }
}

/// The ledger after the posts of one listing were checked in their order,
/// and the places in the listing of the posts to deliver, in that order.
pub open spec fn cycle_outcome(
    ledger: LedgerView,
    chat_id: i64,
    filter: Option<PostType>,
    posts: Seq<Post>,
    only_mark_seen: bool,
    now: i64,
) -> (LedgerView, Seq<int>)
    decreases posts.len(),
{
    if posts.len() == 0 {
        (ledger, Seq::empty())
    } else {
        let before = cycle_outcome(ledger, chat_id, filter, posts.drop_last(), only_mark_seen, now);
        let last = newness_outcome(before.0, chat_id, filter, posts.last(), only_mark_seen, now);
        (
            last.0,
            if last.1 {
                before.1.push(posts.len() - 1)
            } else {
                before.1
            },
        )
    }
}

/// What one poll of a subscription does with the listing that was fetched for
/// it: the filter in force is the subscription's or else the deployment's,
/// and the poll only records where the ledger holds nothing yet for the chat
/// and the subscription's subreddit and first polls skip sending.
pub open spec fn subscription_outcome(
    ledger: LedgerView,
    config: Config,
    sub: SubscriptionView,
    posts: Seq<Post>,
    now: i64,
) -> (LedgerView, Seq<int>) {
    cycle_outcome(
        ledger,
        sub.chat_id,
        config.settings_of(sub.limit, sub.time, sub.filter).filter,
        posts,
        !ledger.has_posts_for(sub.chat_id, sub.subreddit) && config.skip_initial_send,
        now,
    )
}

/// Places in a listing as plain numbers.
pub open spec fn places(at: Seq<usize>) -> Seq<int> {
    at.map_values(|i: usize| i as int)
}

/// Goes through the listing that was fetched for a subscription, at the time
/// `now`. Returns the places in the listing of the posts to deliver, in the
/// order of the listing; every one of them is already recorded as seen.
pub fn check_new_posts_for_subscription(
    ledger: &mut Ledger,
    config: &Config,
    sub: &Subscription,
    posts: &Vec<Post>,
    now: i64,
) -> (deliveries: Vec<usize>)
    ensures
        (final(ledger)@, places(deliveries@)) == subscription_outcome(
            old(ledger)@,
            *config,
            sub@,
            posts@,
            now,
        ),
        old(ledger)@.wf() ==> final(ledger)@.wf(),
{
    let filter = config.settings_for(sub.limit, sub.time, sub.filter).filter;
    let chat_id = sub.chat_id;
    // The first poll of a subreddit sends nothing, but records what it finds,
    // unless the deployment wants the first poll to send.
    let is_new_subreddit = !ledger.existing_posts_for_subreddit(chat_id, sub.subreddit.as_str());
    let only = is_new_subreddit && config.skip_initial_send;
    let mut deliveries: Vec<usize> = Vec::new();
    let mut i: usize = 0;
    proof {
        assert(posts@.take(0) =~= Seq::<Post>::empty());
        assert(places(deliveries@) =~= Seq::<int>::empty());
    }
    while i < posts.len()
        invariant
            i <= posts.len(),
            old(ledger)@.wf() ==> ledger@.wf(),
            (ledger@, places(deliveries@)) == cycle_outcome(
                old(ledger)@,
                chat_id,
                filter,
                posts@.take(i as int),
                only,
                now,
            ),
        decreases posts.len() - i,
    {
        proof {
            assert(posts@.take(i + 1).drop_last() =~= posts@.take(i as int));
            assert(posts@.take(i + 1).last() == posts@[i as int]);
        }
        if check_post_newness(ledger, chat_id, filter, &posts[i], only, now) {
            let ghost before = places(deliveries@);
            deliveries.push(i);
            proof {
                assert(places(deliveries@) =~= before.push(i as int));
            }
        }
        i += 1;
    }
    proof {
        assert(posts@.take(posts.len() as int) =~= posts@);
    }
    deliveries
}


/// Listings as plain values: the posts that were fetched for a subscription,
/// or nothing where the fetch failed.
pub open spec fn listings_view(listings: Seq<Option<Vec<Post>>>) -> Seq<Option<Seq<Post>>> {
    listings.map_values(
        |l: Option<Vec<Post>>|
            match l {
                Some(posts) => Some(posts@),
                None => None,
            },
    )
}

/// The places to deliver, for each subscription, as plain numbers.
pub open spec fn all_places(deliveries: Seq<Vec<usize>>) -> Seq<Seq<int>> {
    deliveries.map_values(|d: Vec<usize>| places(d@))
}

/// What one cycle over the work list `subs` does, where `listings` holds
/// for each subscription, by its place in the work list, what was fetched for
/// it. The subscriptions are polled in the order of the work list. A
/// subscription whose fetch failed, or for which nothing was fetched, is
/// skipped: it changes nothing and delivers nothing, and the cycle goes on
/// with the next one.
pub open spec fn poll_outcome(
    ledger: LedgerView,
    config: Config,
    subs: Seq<SubscriptionView>,
    listings: Seq<Option<Seq<Post>>>,
    now: i64,
) -> (LedgerView, Seq<Seq<int>>)
    decreases subs.len(),
{
    if subs.len() == 0 {
        (ledger, Seq::empty())
    } else {
        let before = poll_outcome(ledger, config, subs.drop_last(), listings, now);
        let at = subs.len() - 1;
        if at < listings.len() && listings[at] is Some {
            let one = subscription_outcome(before.0, config, subs.last(), listings[at]->0, now);
            (one.0, before.1.push(one.1))
        } else {
            (before.0, before.1.push(Seq::empty()))
        }
    }
}

/// Runs one cycle over all subscriptions of the ledger, at the time `now`,
/// with the listings that were fetched for them. Returns, for each
/// subscription in the order of the work list, the places in its listing of
/// the posts to deliver.
pub fn check_new_posts(
    ledger: &mut Ledger,
    config: &Config,
    listings: &Vec<Option<Vec<Post>>>,
    now: i64,
) -> (deliveries: Vec<Vec<usize>>)
    ensures
        (final(ledger)@, all_places(deliveries@)) == poll_outcome(
            old(ledger)@,
            *config,
            old(ledger)@.subscriptions,
            listings_view(listings@),
            now,
        ),
        old(ledger)@.wf() ==> final(ledger)@.wf(),
{
    let subs = ledger.get_all_subscriptions();
    let ghost work = old(ledger)@.subscriptions;
    let ghost fetched = listings_view(listings@);
    let mut deliveries: Vec<Vec<usize>> = Vec::new();
    let mut i: usize = 0;
    proof {
        assert(work.take(0) =~= Seq::<SubscriptionView>::empty());
        assert(all_places(deliveries@) =~= Seq::<Seq<int>>::empty());
    }
    while i < subs.len()
        invariant
            i <= subs.len(),
            work == old(ledger)@.subscriptions,
            work == crate::db::subscription_views(subs@),
            fetched == listings_view(listings@),
            old(ledger)@.wf() ==> ledger@.wf(),
            (ledger@, all_places(deliveries@)) == poll_outcome(
                old(ledger)@,
                *config,
                work.take(i as int),
                fetched,
                now,
            ),
        decreases subs.len() - i,
    {
        let ghost before = all_places(deliveries@);
        proof {
            assert(work.take(i + 1).drop_last() =~= work.take(i as int));
            assert(work.take(i + 1).last() == subs@[i as int]@);
        }
        let one: Vec<usize> = if i < listings.len() {
            match &listings[i] {
                Some(posts) => check_new_posts_for_subscription(ledger, config, &subs[i], posts, now),
                None => Vec::new(),
            }
        } else {
            Vec::new()
        };
        proof {
            if !(i < listings.len() && listings@[i as int] is Some) {
                assert(places(one@) =~= Seq::<int>::empty());
            }
        }
        deliveries.push(one);
        proof {
            assert(all_places(deliveries@) =~= before.push(places(one@)));
        }
        i += 1;
    }
    proof {
        assert(work.take(work.len() as int) =~= work);
    }
    deliveries
}

/// Checking the same post for the same chat a second time delivers nothing
/// and changes nothing, whatever the first check did and whenever the
/// second one comes.
pub proof fn second_check_changes_nothing(
    ledger: LedgerView,
    chat_id: i64,
    filter: Option<PostType>,
    post: Post,
    first_only_marks: bool,
    first_time: i64,
    second_only_marks: bool,
    second_time: i64,
)
    ensures
        ({
            let first = newness_outcome(ledger, chat_id, filter, post, first_only_marks, first_time);
            let second = newness_outcome(
                first.0,
                chat_id,
                filter,
                post,
                second_only_marks,
                second_time,
            );
            !second.1 && second.0 == first.0
        }),
{
    if passes(filter, post.post_type) && !ledger.is_post_seen(chat_id, post.id@) {
        recorded_post_is_seen(ledger, chat_id, post.id@, post.subreddit@, post.title@, first_time);
    }
}

/// A post that the filter does not let through is not delivered and leaves
/// no trace in the ledger.
pub proof fn filtered_post_is_skipped(
    ledger: LedgerView,
    chat_id: i64,
    filter: PostType,
    post: Post,
    only_mark_seen: bool,
    now: i64,
)
    requires
        post.post_type != filter,
    ensures
        newness_outcome(ledger, chat_id, Some(filter), post, only_mark_seen, now) == (ledger, false),
{
}

/// Every post that a cycle delivers is one of the listing and of a kind that
/// the filter lets through; the places come in the order of the listing.
pub proof fn cycle_delivers_only_what_passes(
    ledger: LedgerView,
    chat_id: i64,
    filter: Option<PostType>,
    posts: Seq<Post>,
    only_mark_seen: bool,
    now: i64,
)
    ensures
        ({
            let delivered = cycle_outcome(ledger, chat_id, filter, posts, only_mark_seen, now).1;
            &&& forall|k: int|
                0 <= k < delivered.len() ==> 0 <= (#[trigger] delivered[k]) < posts.len() && passes(
                    filter,
                    posts[delivered[k]].post_type,
                )
            &&& forall|j: int, k: int| 0 <= j < k < delivered.len() ==> delivered[j] < delivered[k]
        }),
    decreases posts.len(),
{
    if posts.len() > 0 {
        cycle_delivers_only_what_passes(
            ledger,
            chat_id,
            filter,
            posts.drop_last(),
            only_mark_seen,
            now,
        );
        let before = cycle_outcome(ledger, chat_id, filter, posts.drop_last(), only_mark_seen, now);
        let delivered = cycle_outcome(ledger, chat_id, filter, posts, only_mark_seen, now).1;
        assert forall|k: int| 0 <= k < delivered.len() implies 0 <= (#[trigger] delivered[k]) < posts.len()
            && passes(filter, posts[delivered[k]].post_type) by {
            if k < before.1.len() {
                assert(delivered[k] == before.1[k]);
                assert(posts.drop_last()[before.1[k]] == posts[before.1[k]]);
            }
        }
        assert forall|j: int, k: int| 0 <= j < k < delivered.len() implies delivered[j]
            < delivered[k] by {
            assert(delivered[j] == before.1[j]);
            if k < before.1.len() {
                assert(delivered[k] == before.1[k]);
            }
        }
    }
}

/// What a chat has seen before a cycle, it has seen after it.
pub proof fn cycle_keeps_what_was_seen(
    ledger: LedgerView,
    chat_id: i64,
    filter: Option<PostType>,
    posts: Seq<Post>,
    only_mark_seen: bool,
    now: i64,
    seen_chat: i64,
    seen_post: Seq<char>,
)
    requires
        ledger.is_post_seen(seen_chat, seen_post),
    ensures
        cycle_outcome(ledger, chat_id, filter, posts, only_mark_seen, now).0.is_post_seen(
            seen_chat,
            seen_post,
        ),
    decreases posts.len(),
{
    if posts.len() > 0 {
        cycle_keeps_what_was_seen(
            ledger,
            chat_id,
            filter,
            posts.drop_last(),
            only_mark_seen,
            now,
            seen_chat,
            seen_post,
        );
        let before = cycle_outcome(ledger, chat_id, filter, posts.drop_last(), only_mark_seen, now).0;
        let last = posts.last();
        seen_stays_seen(
            before,
            seen_chat,
            seen_post,
            chat_id,
            last.id@,
            last.subreddit@,
            last.title@,
            Some(now),
        );
    }
}

/// A cycle delivers only posts that the chat had not seen before the cycle,
/// delivers no post twice, and leaves every post that it delivers recorded
/// as seen: the record is made before the delivery and does not wait for it
/// to succeed.
pub proof fn cycle_delivers_new_posts_once(
    ledger: LedgerView,
    chat_id: i64,
    filter: Option<PostType>,
    posts: Seq<Post>,
    only_mark_seen: bool,
    now: i64,
)
    ensures
        ({
            let after = cycle_outcome(ledger, chat_id, filter, posts, only_mark_seen, now);
            &&& forall|k: int|
                0 <= k < after.1.len() ==> 0 <= (#[trigger] after.1[k]) < posts.len()
                    && !ledger.is_post_seen(chat_id, posts[after.1[k]].id@) && after.0.is_post_seen(
                    chat_id,
                    posts[after.1[k]].id@,
                )
            &&& forall|j: int, k: int|
                0 <= j < k < after.1.len() ==> posts[#[trigger] after.1[j]].id@
                    != posts[#[trigger] after.1[k]].id@
        }),
    decreases posts.len(),
{
    if posts.len() > 0 {
        let head = posts.drop_last();
        let last = posts.last();
        cycle_delivers_new_posts_once(ledger, chat_id, filter, head, only_mark_seen, now);
        let before = cycle_outcome(ledger, chat_id, filter, head, only_mark_seen, now);
        let after = cycle_outcome(ledger, chat_id, filter, posts, only_mark_seen, now);
        let step = newness_outcome(before.0, chat_id, filter, last, only_mark_seen, now);
        // what the earlier steps delivered stays seen
        assert forall|k: int| 0 <= k < before.1.len() implies after.0.is_post_seen(
            chat_id,
            posts[#[trigger] before.1[k]].id@,
        ) by {
            assert(head[before.1[k]] == posts[before.1[k]]);
            if step.0 != before.0 {
                seen_stays_seen(
                    before.0,
                    chat_id,
                    posts[before.1[k]].id@,
                    chat_id,
                    last.id@,
                    last.subreddit@,
                    last.title@,
                    Some(now),
                );
            }
        }
        if step.1 {
            // the last post is delivered: the chat had not seen it, and has now
            assert(!before.0.is_post_seen(chat_id, last.id@));
            if ledger.is_post_seen(chat_id, last.id@) {
                cycle_keeps_what_was_seen(
                    ledger,
                    chat_id,
                    filter,
                    head,
                    only_mark_seen,
                    now,
                    chat_id,
                    last.id@,
                );
            }
            recorded_post_is_seen(before.0, chat_id, last.id@, last.subreddit@, last.title@, now);
        }
        assert forall|k: int| 0 <= k < after.1.len() implies 0 <= (#[trigger] after.1[k]) < posts.len()
            && !ledger.is_post_seen(chat_id, posts[after.1[k]].id@) && after.0.is_post_seen(
            chat_id,
            posts[after.1[k]].id@,
        ) by {
            if k < before.1.len() {
                assert(after.1[k] == before.1[k]);
                assert(head[before.1[k]] == posts[before.1[k]]);
            }
        }
        assert forall|j: int, k: int| 0 <= j < k < after.1.len() implies posts[#[trigger] after.1[j]].id@
            != posts[#[trigger] after.1[k]].id@ by {
            assert(after.1[j] == before.1[j]);
            assert(head[before.1[j]] == posts[before.1[j]]);
            if k < before.1.len() {
                assert(after.1[k] == before.1[k]);
                assert(head[before.1[k]] == posts[before.1[k]]);
            } else {
                assert(before.0.is_post_seen(chat_id, posts[before.1[j]].id@));
            }
        }
    }
}

/// A cycle that only records delivers nothing.
pub proof fn recording_cycle_delivers_nothing(
    ledger: LedgerView,
    chat_id: i64,
    filter: Option<PostType>,
    posts: Seq<Post>,
    now: i64,
)
    ensures
        cycle_outcome(ledger, chat_id, filter, posts, true, now).1.len() == 0,
    decreases posts.len(),
{
    if posts.len() > 0 {
        recording_cycle_delivers_nothing(ledger, chat_id, filter, posts.drop_last(), now);
    }
}

/// The row that a poll at the time `now` enters for a post.
pub open spec fn seen_row(chat_id: i64, post: Post, now: i64) -> PostRecordView {
    PostRecordView {
        post_id: post.id@,
        chat_id,
        subreddit: post.subreddit@,
        seen_at: Some(now),
        post_title: post.title@,
    }
}

/// A cycle that only records enters one row for each post of its listing, in
/// the order of the listing, where the filter lets every post through, no two
/// posts of the listing share an id, and the chat has no row yet for any of
/// them.
pub proof fn recording_cycle_records_every_post(
    ledger: LedgerView,
    chat_id: i64,
    filter: Option<PostType>,
    posts: Seq<Post>,
    now: i64,
)
    requires
        forall|i: int| 0 <= i < posts.len() ==> passes(filter, (#[trigger] posts[i]).post_type),
        forall|i: int, j: int|
            0 <= i < j < posts.len() ==> (#[trigger] posts[i]).id@ != (#[trigger] posts[j]).id@,
        forall|i: int|
            0 <= i < posts.len() ==> post_index(ledger.posts, (#[trigger] posts[i]).id@, chat_id) is None,
    ensures
        cycle_outcome(ledger, chat_id, filter, posts, true, now).0 == (LedgerView {
            posts: ledger.posts + posts.map_values(|p: Post| seen_row(chat_id, p, now)),
            ..ledger
        }),
    decreases posts.len(),
{
    let rows = posts.map_values(|p: Post| seen_row(chat_id, p, now));
    if posts.len() == 0 {
        assert(ledger.posts + rows =~= ledger.posts);
    } else {
        let head = posts.drop_last();
        let last = posts.last();
        assert forall|i: int| 0 <= i < head.len() implies passes(filter, (#[trigger] head[i]).post_type) by {
            assert(head[i] == posts[i]);
        }
        assert forall|i: int, j: int| 0 <= i < j < head.len() implies (#[trigger] head[i]).id@ != (
        #[trigger] head[j]).id@ by {
            assert(head[i] == posts[i] && head[j] == posts[j]);
        }
        assert forall|i: int| 0 <= i < head.len() implies post_index(
            ledger.posts,
            (#[trigger] head[i]).id@,
            chat_id,
        ) is None by {
            assert(head[i] == posts[i]);
        }
        recording_cycle_records_every_post(ledger, chat_id, filter, head, now);
        let head_rows = head.map_values(|p: Post| seen_row(chat_id, p, now));
        let before = cycle_outcome(ledger, chat_id, filter, head, true, now).0;
        let key = post_key(last.id@, chat_id);
        first_index_is_first(ledger.posts, key);
        assert forall|j: int| 0 <= j < before.posts.len() implies !key(#[trigger] before.posts[j]) by {
            if j < ledger.posts.len() {
                assert(before.posts[j] == ledger.posts[j]);
            } else {
                let k = j - ledger.posts.len();
                assert(before.posts[j] == head_rows[k]);
                assert(head[k] == posts[k]);
                assert(posts[k].id@ != posts[posts.len() - 1].id@);
            }
        }
        first_index_none(before.posts, key);
        unrecorded_post_is_not_seen(before, chat_id, last.id@);
        assert(rows =~= head_rows.push(seen_row(chat_id, last, now)));
        assert(ledger.posts + rows =~= (ledger.posts + head_rows).push(seen_row(chat_id, last, now)));
    }
}

/// The first poll of a subscription, where first polls skip sending,
/// delivers nothing.
pub proof fn first_poll_delivers_nothing(
    ledger: LedgerView,
    config: Config,
    sub: SubscriptionView,
    posts: Seq<Post>,
    now: i64,
)
    requires
        !ledger.has_posts_for(sub.chat_id, sub.subreddit),
        config.skip_initial_send,
    ensures
        subscription_outcome(ledger, config, sub, posts, now).1.len() == 0,
{
    recording_cycle_delivers_nothing(
        ledger,
        sub.chat_id,
        config.settings_of(sub.limit, sub.time, sub.filter).filter,
        posts,
        now,
    );
}

/// The first poll of a subscription, where first polls skip sending, enters
/// one row with the poll's time for each post of its listing and delivers
/// nothing. This is stated for a listing whose posts the filter in force
/// lets through, that holds no post twice, and of whose posts the chat has
/// no row yet.
pub proof fn first_poll_records_every_post(
    ledger: LedgerView,
    config: Config,
    sub: SubscriptionView,
    posts: Seq<Post>,
    now: i64,
)
    requires
        !ledger.has_posts_for(sub.chat_id, sub.subreddit),
        config.skip_initial_send,
        forall|i: int|
            0 <= i < posts.len() ==> passes(
                config.settings_of(sub.limit, sub.time, sub.filter).filter,
                (#[trigger] posts[i]).post_type,
            ),
        forall|i: int, j: int|
            0 <= i < j < posts.len() ==> (#[trigger] posts[i]).id@ != (#[trigger] posts[j]).id@,
        forall|i: int|
            0 <= i < posts.len() ==> post_index(ledger.posts, (#[trigger] posts[i]).id@, sub.chat_id) is None,
    ensures
        ({
            let after = subscription_outcome(ledger, config, sub, posts, now);
            &&& after.1.len() == 0
            &&& after.0.posts.len() == ledger.posts.len() + posts.len()
            &&& after.0 == (LedgerView {
                posts: ledger.posts + posts.map_values(|p: Post| seen_row(sub.chat_id, p, now)),
                ..ledger
            })
            &&& forall|i: int|
                0 <= i < posts.len() ==> after.0.is_post_seen(sub.chat_id, (#[trigger] posts[i]).id@)
        }),
{
    let filter = config.settings_of(sub.limit, sub.time, sub.filter).filter;
    first_poll_delivers_nothing(ledger, config, sub, posts, now);
    recording_cycle_records_every_post(ledger, sub.chat_id, filter, posts, now);
    let after = subscription_outcome(ledger, config, sub, posts, now);
    let rows = posts.map_values(|p: Post| seen_row(sub.chat_id, p, now));
    assert forall|i: int| 0 <= i < posts.len() implies after.0.is_post_seen(
        sub.chat_id,
        (#[trigger] posts[i]).id@,
    ) by {
        let at = ledger.posts.len() + i;
        assert(after.0.posts[at] == rows[i]);
        assert(after.0.posts[at].seen_at is Some);
    }
}


/// Where the scheduler stands.
#[derive(Debug, Clone, Copy, PartialEq, Eq, Structural)]
pub enum Phase {
    /// Between two cycles.
    Idle,
    /// In a cycle over `total` subscriptions, of which the one at `next` is
    /// being polled. `stopping` is set once a shutdown was asked for.
    Polling { next: usize, total: usize, stopping: bool },
    /// Shut down.
    Stopped,
}

/// What the scheduler is told.
#[derive(Debug, Clone, Copy, PartialEq, Eq, Structural)]
pub enum Event {
    /// The relay started, or the interval between two cycles is over;
    /// `subscriptions` is the length of the work list as it is now.
    Wake { subscriptions: usize },
    /// The poll of one subscription is done, whether it failed or not.
    Polled,
    /// A shutdown was asked for.
    Shutdown,
}

/// What the scheduler asks for next.
#[derive(Debug, Clone, Copy, PartialEq, Eq, Structural)]
pub enum Action {
    /// Poll the subscription at this place of the work list.
    Poll { index: usize },
    /// Sleep for the interval, or until a shutdown is asked for.
    Sleep { seconds: u64 },
    /// Go on with what is under way.
    Wait,
    /// Leave the loop.
    Exit,
}

/// The scheduler's next phase and what it asks for. A cycle polls the
/// subscriptions one after the other, in the order of the work list, and is
/// followed by a sleep. A shutdown ends a sleep at once; a cycle under way is
/// finished first.
pub open spec fn step_of(phase: Phase, event: Event, interval: u64) -> (Phase, Action) {
    match phase {
        Phase::Stopped => (Phase::Stopped, Action::Exit),
        Phase::Idle => match event {
            Event::Wake { subscriptions } => if subscriptions > 0 {
                (
                    Phase::Polling { next: 0, total: subscriptions, stopping: false },
                    Action::Poll { index: 0 },
                )
            } else {
                (Phase::Idle, Action::Sleep { seconds: interval })
            },
            Event::Polled => (Phase::Idle, Action::Wait),
            Event::Shutdown => (Phase::Stopped, Action::Exit),
        },
        Phase::Polling { next, total, stopping } => match event {
            Event::Wake { .. } => (phase, Action::Wait),
            Event::Shutdown => (Phase::Polling { next, total, stopping: true }, Action::Wait),
            Event::Polled => if next + 1 < total {
                (
                    Phase::Polling { next: (next + 1) as usize, total, stopping },
                    Action::Poll { index: (next + 1) as usize },
                )
            } else if stopping {
                (Phase::Stopped, Action::Exit)
            } else {
                (Phase::Idle, Action::Sleep { seconds: interval })
            },
        },
    }
}

/// Moves the scheduler on by one event.
pub fn step(phase: Phase, event: Event, interval: u64) -> (next: (Phase, Action))
    ensures
        next == step_of(phase, event, interval),
{
    match phase {
        Phase::Stopped => (Phase::Stopped, Action::Exit),
        Phase::Idle => match event {
            Event::Wake { subscriptions } => if subscriptions > 0 {
                (
                    Phase::Polling { next: 0, total: subscriptions, stopping: false },
                    Action::Poll { index: 0 },
                )
            } else {
                (Phase::Idle, Action::Sleep { seconds: interval })
            },
            Event::Polled => (Phase::Idle, Action::Wait),
            Event::Shutdown => (Phase::Stopped, Action::Exit),
        },
        Phase::Polling { next, total, stopping } => match event {
            Event::Wake { .. } => (phase, Action::Wait),
            Event::Shutdown => (Phase::Polling { next, total, stopping: true }, Action::Wait),
            Event::Polled => if next < total && next + 1 < total {
                (Phase::Polling { next: next + 1, total, stopping }, Action::Poll { index: next + 1 })
            } else if stopping {
                (Phase::Stopped, Action::Exit)
            } else {
                (Phase::Idle, Action::Sleep { seconds: interval })
            },
        },
    }
}

/// The scheduler never asks to poll a place outside the work list of the
/// cycle that is under way, and a scheduler that has stopped stays stopped.
pub proof fn step_stays_in_the_work_list(phase: Phase, event: Event, interval: u64)
    requires
        phase matches Phase::Polling { next, total, .. } ==> next < total,
    ensures
        ({
            let after = step_of(phase, event, interval);
            &&& after.0 matches Phase::Polling { next, total, .. } ==> next < total
            &&& after.1 matches Action::Poll { index } ==> after.0 matches Phase::Polling {
                next,
                total,
                ..
            } && index == next
            &&& phase is Stopped ==> after.0 is Stopped
        }),
{
}

} // verus!
