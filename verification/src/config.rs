//! The deployment's settings, as far as the relay's decisions read them.

use crate::reddit::{PostType, TopPostsTimePeriod};
use vstd::prelude::*;

verus! {

/// How many posts a poll asks for when neither the subscription nor the
/// deployment says otherwise.
pub const DEFAULT_LIMIT: u32 = 1;

/// The window a poll asks for when neither the subscription nor the
/// deployment says otherwise.
pub const DEFAULT_TIME_PERIOD: TopPostsTimePeriod = TopPostsTimePeriod::Day;

/// The settings that decisions depend on.
#[derive(Debug, Clone)]
pub struct Config {
    /// The users whose commands and button presses are handled.
    pub authorized_user_ids: Vec<u64>,
    /// Seconds between two polls.
    pub check_interval_secs: u64,
    /// Whether the first poll of a new subscription only records what it finds.
    pub skip_initial_send: bool,
    /// Another site to build links on, in place of the feed source.
    pub links_base_url: Option<String>,
    pub default_limit: Option<u32>,
    pub default_time: Option<TopPostsTimePeriod>,
    pub default_filter: Option<PostType>,
}

/// What one poll or one on-demand fetch asks of the feed source, and which
/// kind of post it lets through.
#[derive(Debug, Clone, Copy, PartialEq, Eq, Structural)]
pub struct FetchSettings {
    pub limit: u32,
    pub time: TopPostsTimePeriod,
    pub filter: Option<PostType>,
}

/// A first poll skips sending unless the deployment says otherwise.
pub fn default_skip_initial_send() -> (skip: bool)
    ensures
        skip,
{
    true
}

/// The first of two optional values that is present.
pub open spec fn first_of<T>(own: Option<T>, fallback: Option<T>) -> Option<T> {
    match own {
        Some(_) => own,
        None => fallback,
    }
}

impl Config {
    /// Whether `user` is on the list of authorized users.
    pub open spec fn authorizes(self, user: u64) -> bool {
        self.authorized_user_ids@.contains(user)
    }

    /// The settings in force where a subscription or a command brings the
    /// given overrides: each override wins over the deployment's default,
    /// which wins over the built-in one. There is no built-in filter.
    pub open spec fn settings_of(
        self,
        limit: Option<u32>,
        time: Option<TopPostsTimePeriod>,
        filter: Option<PostType>,
    ) -> FetchSettings {
        FetchSettings {
            limit: match first_of(limit, self.default_limit) {
                Some(l) => l,
                None => DEFAULT_LIMIT,
            },
            time: match first_of(time, self.default_time) {
                Some(t) => t,
                None => DEFAULT_TIME_PERIOD,
            },
            filter: first_of(filter, self.default_filter),
        }
    }

    /// Whether the sender of a message or button press may be served. A
    /// message without a sender is never served.
    pub fn is_authorized(&self, user: Option<u64>) -> (allowed: bool)
        ensures
            allowed == (user matches Some(id) && self.authorizes(id)),
    {
        match user {
            None => false,
            Some(id) => {
                let mut i: usize = 0;
                while i < self.authorized_user_ids.len()
                    invariant
                        i <= self.authorized_user_ids.len(),
                        user == Some(id),
                        forall|k: int| 0 <= k < i ==> self.authorized_user_ids@[k] != id,
                    decreases self.authorized_user_ids.len() - i,
                {
                    if self.authorized_user_ids[i] == id {
                        proof {
                            assert(self.authorized_user_ids@[i as int] == id);
                        }
                        return true;
                    }
                    i += 1;
                }
                false
            },
        }
    }

    /// Resolves the overrides of a subscription or a command against the
    /// deployment's defaults.
    pub fn settings_for(
        &self,
        limit: Option<u32>,
        time: Option<TopPostsTimePeriod>,
        filter: Option<PostType>,
    ) -> (settings: FetchSettings)
        ensures
            settings == self.settings_of(limit, time, filter),
    {
        let limit = match limit {
            Some(l) => l,
            None => match self.default_limit {
                Some(l) => l,
                None => DEFAULT_LIMIT,
            },
        };
        let time = match time {
            Some(t) => t,
            None => match self.default_time {
                Some(t) => t,
                None => DEFAULT_TIME_PERIOD,
            },
        };
        let filter = match filter {
            Some(f) => Some(f),
            None => self.default_filter,
        };
        FetchSettings { limit, time, filter }
    }
}

} // verus!
