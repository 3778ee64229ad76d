//! The data that crosses the store's boundary, each with its mathematical model.

use vstd::prelude::*;
use crate::rate::ClickRate;
use crate::rate::Rate;
use crate::timestamp::Timestamp;

verus! {

/// The model of a click event: every text field as its sequence of characters.
pub struct Click {
    pub campaign_id: Seq<char>,
    pub user_id: Seq<char>,
    pub timestamp: Timestamp,
    pub ip_address: Seq<char>,
    pub user_agent: Seq<char>,
}

/// One user interaction attributed to a campaign.
///
/// Only `campaign_id` is constrained: it must not be empty. The address and the user agent
/// are carried as opaque text.
#[derive(Clone, Debug, PartialEq, Eq)]
pub struct ClickEvent {
    pub campaign_id: String,
    pub user_id: String,
    pub timestamp: Timestamp,
    pub ip_address: String,
    pub user_agent: String,
}

impl View for ClickEvent {
    type V = Click;

    open spec fn view(&self) -> Click {
        Click {
            campaign_id: self.campaign_id@,
            user_id: self.user_id@,
            timestamp: self.timestamp,
            ip_address: self.ip_address@,
            user_agent: self.user_agent@,
        }
    }
}

impl Click {
    /// A click is well formed when it names a campaign.
    pub open spec fn well_formed(self) -> bool {
        self.campaign_id.len() > 0
    }
}

/// The model of one campaign's statistics.
pub struct StatsModel {
    pub total_clicks: nat,
    pub unique_users: Set<Seq<char>>,
    pub click_timestamps: Seq<Timestamp>,
}

impl StatsModel {
    /// The statistics of a campaign before its first click.
    pub open spec fn empty() -> StatsModel {
        StatsModel {
            total_clicks: 0,
            unique_users: Set::empty(),
            click_timestamps: Seq::empty(),
        }
    }

    /// The statistics after one more click, by `user_id` at `at`.
    pub open spec fn with_click(self, user_id: Seq<char>, at: Timestamp) -> StatsModel {
        StatsModel {
            total_clicks: self.total_clicks + 1,
            unique_users: self.unique_users.insert(user_id),
            click_timestamps: self.click_timestamps.push(at),
        }
    }

    /// What holds of the statistics of every campaign in a store: at least one click was
    /// counted, one instant is kept per click, and the users are finitely many, at least
    /// one and at most as many as the clicks.
    pub open spec fn consistent(self) -> bool {
        &&& self.total_clicks >= 1
        &&& self.click_timestamps.len() == self.total_clicks
        &&& self.unique_users.finite()
        &&& 1 <= self.unique_users.len() <= self.total_clicks
    }
}

/// The identifiers in a list of users, each as its sequence of characters.
pub open spec fn user_ids(users: Seq<String>) -> Seq<Seq<char>> {
    users.map_values(|user: String| user@)
}

/// The raw statistics of one campaign, as a full dump hands them out.
///
/// `unique_users` lists the distinct users in the order in which each was first seen;
/// `click_timestamps` holds one instant per click in arrival order.
#[derive(Debug, PartialEq, Eq)]
pub struct CampaignStats {
    pub total_clicks: u64,
    pub unique_users: Vec<String>,
    pub click_timestamps: Vec<Timestamp>,
}

impl View for CampaignStats {
    type V = StatsModel;

    open spec fn view(&self) -> StatsModel {
        StatsModel {
            total_clicks: self.total_clicks as nat,
            unique_users: user_ids(self.unique_users@).to_set(),
            click_timestamps: self.click_timestamps@,
        }
    }
}

impl CampaignStats {
    /// Whether no user is listed twice, so that the length of `unique_users` is the number
    /// of distinct users.
    pub open spec fn lists_each_user_once(&self) -> bool {
        user_ids(self.unique_users@).no_duplicates()
    }
}

impl Default for CampaignStats {
    /// The statistics of a campaign before its first click.
    fn default() -> (r: CampaignStats)
        ensures
            r.total_clicks == 0,
            r.unique_users@ == Seq::<String>::empty(),
            r.click_timestamps@ == Seq::<Timestamp>::empty(),
            r@ == StatsModel::empty(),
    {
        let stats = CampaignStats {
            total_clicks: 0,
            unique_users: Vec::new(),
            click_timestamps: Vec::new(),
        };
        assert(user_ids(stats.unique_users@).to_set() =~= Set::<Seq<char>>::empty());
        stats
    }
}

impl Clone for CampaignStats {
    /// A copy that holds the same users and the same instants in the same order.
    fn clone(&self) -> (r: CampaignStats)
        ensures
            r.total_clicks == self.total_clicks,
            r.unique_users@ == self.unique_users@,
            r.click_timestamps@ == self.click_timestamps@,
    {
        let mut unique_users: Vec<String> = Vec::new();
        let mut i: usize = 0;
        while i < self.unique_users.len()
            invariant
                i <= self.unique_users.len(),
                unique_users@ == self.unique_users@.take(i as int),
            decreases self.unique_users.len() - i,
        {
            unique_users.push(self.unique_users[i].clone());
            i = i + 1;
        }
        let mut click_timestamps: Vec<Timestamp> = Vec::new();
        let mut j: usize = 0;
        while j < self.click_timestamps.len()
            invariant
                j <= self.click_timestamps.len(),
                click_timestamps@ == self.click_timestamps@.take(j as int),
            decreases self.click_timestamps.len() - j,
        {
            click_timestamps.push(self.click_timestamps[j]);
            j = j + 1;
        }
        CampaignStats { total_clicks: self.total_clicks, unique_users, click_timestamps }
    }
}

/// The model of a snapshot.
pub struct Snapshot {
    pub campaign_id: Seq<char>,
    pub total_clicks: nat,
    pub unique_users: nat,
    pub clicks_per_second: Rate,
}

/// A point-in-time view of one campaign, derived on every read and never stored.
#[derive(Clone, Debug, PartialEq, Eq)]
pub struct AggregationResult {
    pub campaign_id: String,
    pub total_clicks: u64,
    pub unique_users: usize,
    pub clicks_per_second: ClickRate,
}

impl View for AggregationResult {
    type V = Snapshot;

    open spec fn view(&self) -> Snapshot {
        Snapshot {
            campaign_id: self.campaign_id@,
            total_clicks: self.total_clicks as nat,
            unique_users: self.unique_users as nat,
            clicks_per_second: self.clicks_per_second@,
        }
    }
}

} // verus!
