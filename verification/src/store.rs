//! The aggregation store: one entry of statistics per campaign, created on the campaign's
//! first click and never removed.

use vstd::prelude::*;
use vstd::hash_map::StringHashMap;
use vstd::hash_set::StringHashSet;
use crate::models::user_ids;
use crate::models::AggregationResult;
use crate::models::CampaignStats;
use crate::models::Click;
use crate::models::ClickEvent;
use crate::models::Snapshot;
use crate::models::StatsModel;
use crate::rate::click_rate;
use crate::rate::rate_of;
use crate::timestamp::Timestamp;

verus! {

/// The statistics that `store` holds for `campaign_id`; those of a campaign without
/// clicks when it holds none.
pub open spec fn stats_before(store: Map<Seq<char>, StatsModel>, campaign_id: Seq<char>)
    -> StatsModel {
    if store.contains_key(campaign_id) {
        store[campaign_id]
    } else {
        StatsModel::empty()
    }
}

/// The store after recording `click`: the click's campaign gains one click, the click's
/// user and the click's instant; every other campaign is as before.
pub open spec fn record_effect(store: Map<Seq<char>, StatsModel>, click: Click) -> Map<
    Seq<char>,
    StatsModel,
> {
    store.insert(
        click.campaign_id,
        stats_before(store, click.campaign_id).with_click(click.user_id, click.timestamp),
    )
}

/// The store after `click` was handed in: recorded if it is well formed, and turned down
/// without a trace if it is not.
pub open spec fn after_click(store: Map<Seq<char>, StatsModel>, click: Click) -> Map<
    Seq<char>,
    StatsModel,
> {
    if click.well_formed() {
        record_effect(store, click)
    } else {
        store
    }
}

/// The snapshot that statistics `stats` give for the campaign `campaign_id`.
pub open spec fn snapshot_from(campaign_id: Seq<char>, stats: StatsModel) -> Snapshot {
    Snapshot {
        campaign_id,
        total_clicks: stats.total_clicks,
        unique_users: stats.unique_users.len(),
        clicks_per_second: rate_of(stats.click_timestamps),
    }
}

/// The snapshot of `campaign_id` in `store`, if the campaign has any click.
pub open spec fn snapshot_of(store: Map<Seq<char>, StatsModel>, campaign_id: Seq<char>)
    -> Option<Snapshot> {
    if store.contains_key(campaign_id) {
        Some(snapshot_from(campaign_id, store[campaign_id]))
    } else {
        None
    }
}

/// Whether the statistics of every campaign in `store` are consistent.
pub open spec fn store_consistent(store: Map<Seq<char>, StatsModel>) -> bool {
    forall|campaign_id: Seq<char>| #[trigger]
        store.contains_key(campaign_id) ==> store[campaign_id].consistent()
}

/// Whether `dump` lists the campaigns of `store`, each once and each with its statistics,
/// and in the statistics each user once.
pub open spec fn is_full_dump(
    dump: Seq<(String, CampaignStats)>,
    store: Map<Seq<char>, StatsModel>,
) -> bool {
    &&& forall|i: int|
        0 <= i < dump.len() ==> store.contains_key((#[trigger] dump[i]).0@) && dump[i].1@
            == store[dump[i].0@] && dump[i].1.lists_each_user_once()
    &&& forall|i: int, j: int|
        0 <= i < j < dump.len() ==> (#[trigger] dump[i]).0@ != (#[trigger] dump[j]).0@
    &&& forall|id: Seq<char>| #[trigger]
        store.contains_key(id) ==> exists|i: int| 0 <= i < dump.len() && (#[trigger] dump[i]).0@ == id
}

/// Why the store turned a request down.
#[derive(Clone, Copy, Debug, PartialEq, Eq)]
pub enum ClickError {
    /// The click names no campaign.
    EmptyCampaignId,
    /// No click was ever recorded for the campaign.
    CampaignNotFound,
}

/// One campaign in the store: its identifier, its statistics, and the set of its users
/// for constant-time membership tests.
struct CampaignEntry {
    campaign_id: String,
    stats: CampaignStats,
    seen: StringHashSet,
}

impl CampaignEntry {
    /// The entry's parts agree with each other; true of an entry without clicks too.
    spec fn coherent(self) -> bool {
        &&& self.stats.lists_each_user_once()
        &&& self.seen@ == user_ids(self.stats.unique_users@).to_set()
        &&& self.stats.click_timestamps@.len() == self.stats.total_clicks
        &&& self.stats.unique_users@.len() <= self.stats.total_clicks
    }

    /// The entry is coherent and has at least one click.
    spec fn recorded(self) -> bool {
        &&& self.coherent()
        &&& self.stats.total_clicks >= 1
        &&& self.stats.unique_users@.len() >= 1
    }
}

proof fn lemma_recorded_is_consistent(entry: CampaignEntry)
    requires
        entry.recorded(),
    ensures
        entry.stats@.consistent(),
        entry.stats@.unique_users.len() == entry.stats.unique_users@.len(),
{
    let ids = user_ids(entry.stats.unique_users@);
    ids.unique_seq_to_set();
    vstd::seq_lib::seq_to_set_is_finite(ids);
}

/// Counts one more click in `entry`, by `user_id` at `at`.
fn apply_click(entry: &mut CampaignEntry, user_id: String, at: Timestamp)
    requires
        old(entry).coherent(),
    ensures
        final(entry).recorded(),
        final(entry).campaign_id == old(entry).campaign_id,
        final(entry).stats@ == old(entry).stats@.with_click(user_id@, at),
{
    let ghost before = user_ids(entry.stats.unique_users@);
    entry.stats.click_timestamps.push(at);
    assert(entry.stats.total_clicks < entry.stats.click_timestamps.len() <= usize::MAX);
    entry.stats.total_clicks = entry.stats.total_clicks + 1;
    let first_visit: bool = entry.seen.insert(user_id.clone());
    if first_visit {
        entry.stats.unique_users.push(user_id);
        proof {
            assert(user_ids(entry.stats.unique_users@) =~= before.push(user_id@));
            before.lemma_push_to_set_commute(user_id@);
        }
    } else {
        assert(before.to_set().insert(user_id@) =~= before.to_set());
    }
}

/// The snapshot of a campaign with at least one click.
fn snapshot(entry: &CampaignEntry) -> (r: AggregationResult)
    requires
        entry.recorded(),
    ensures
        r@ == snapshot_from(entry.campaign_id@, entry.stats@),
{
    proof {
        lemma_recorded_is_consistent(*entry);
    }
    AggregationResult {
        campaign_id: entry.campaign_id.clone(),
        total_clicks: entry.stats.total_clicks,
        unique_users: entry.stats.unique_users.len(),
        clicks_per_second: click_rate(&entry.stats.click_timestamps),
    }
}

/// Each identifier in the index points at the entry of that campaign, and each entry is
/// pointed at by its own identifier.
spec fn slots_agree(index: Map<Seq<char>, usize>, entries: Seq<CampaignEntry>) -> bool {
    &&& forall|id: Seq<char>| #[trigger]
        index.contains_key(id) ==> index[id] < entries.len() && entries[index[id] as int].campaign_id@
            == id
    &&& forall|i: int|
        0 <= i < entries.len() ==> index.contains_key((#[trigger] entries[i]).campaign_id@)
            && index[entries[i].campaign_id@] == i
}

/// Every entry has at least one click and agrees with itself.
spec fn all_recorded(entries: Seq<CampaignEntry>) -> bool {
    forall|i: int| 0 <= i < entries.len() ==> (#[trigger] entries[i]).recorded()
}

/// The statistics per campaign that an index and its entries stand for.
spec fn view_of(index: Map<Seq<char>, usize>, entries: Seq<CampaignEntry>) -> Map<
    Seq<char>,
    StatsModel,
> {
    Map::new(
        |id: Seq<char>| index.contains_key(id),
        |id: Seq<char>| entries[index[id] as int].stats@,
    )
}

proof fn lemma_view_is_consistent(index: Map<Seq<char>, usize>, entries: Seq<CampaignEntry>)
    requires
        slots_agree(index, entries),
        all_recorded(entries),
    ensures
        store_consistent(view_of(index, entries)),
{
    assert forall|id: Seq<char>| #[trigger]
        view_of(index, entries).contains_key(id) implies view_of(index, entries)[id].consistent() by {
        lemma_recorded_is_consistent(entries[index[id] as int]);
    }
}

/// Records `click` in the campaign's entry, which is created first if the campaign has
/// none, and returns the campaign's snapshot after the update.
fn record_into(
    index: &mut StringHashMap<usize>,
    entries: &mut Vec<CampaignEntry>,
    click: ClickEvent,
) -> (r: AggregationResult)
    requires
        slots_agree(old(index)@, old(entries)@),
        all_recorded(old(entries)@),
    ensures
        slots_agree(final(index)@, final(entries)@),
        all_recorded(final(entries)@),
        view_of(final(index)@, final(entries)@) == record_effect(
            view_of(old(index)@, old(entries)@),
            click@,
        ),
        Some(r@) == snapshot_of(view_of(final(index)@, final(entries)@), click@.campaign_id),
{
    let ghost index0 = index@;
    let ghost entries0 = entries@;
    let found: Option<usize> = match index.get(click.campaign_id.as_str()) {
        Some(slot) => Some(*slot),
        None => None,
    };
    let slot: usize = match found {
        Some(slot) => slot,
        None => {
            let slot: usize = entries.len();
            let fresh = CampaignEntry {
                campaign_id: click.campaign_id.clone(),
                stats: CampaignStats::default(),
                seen: StringHashSet::new(),
            };
            entries.push(fresh);
            index.insert(click.campaign_id.clone(), slot);
            slot
        },
    };
    apply_click(&mut entries[slot], click.user_id, click.timestamp);
    assert(view_of(index@, entries@) =~= record_effect(view_of(index0, entries0), click@));
    snapshot(&entries[slot])
}

/// The aggregation store.
///
/// Its model is a map from campaign identifier to the campaign's statistics. A campaign is
/// in the map from its first click on, and is never removed.
pub struct AppState {
    index: StringHashMap<usize>,
    entries: Vec<CampaignEntry>,
}

impl View for AppState {
    type V = Map<Seq<char>, StatsModel>;

    closed spec fn view(&self) -> Map<Seq<char>, StatsModel> {
        view_of(self.index@, self.entries@)
    }
}

impl AppState {
    #[verifier::type_invariant]
    spec fn well_formed(self) -> bool {
        &&& slots_agree(self.index@, self.entries@)
        &&& all_recorded(self.entries@)
    }

    /// A store without campaigns.
    pub fn new() -> (state: AppState)
        ensures
            state@ == Map::<Seq<char>, StatsModel>::empty(),
    {
        let state = AppState { index: StringHashMap::new(), entries: Vec::new() };
        assert(state@ =~= Map::<Seq<char>, StatsModel>::empty());
        state
    }
}

/// Records one click and returns the snapshot of its campaign after the update.
///
/// A click that names no campaign is turned down and leaves the store as it was. Any other
/// click is recorded: its campaign is created if this is its first click, the campaign's
/// counter goes up by one, the user joins the campaign's users, and the instant is
/// appended to the campaign's instants.
pub fn record_click(state: &mut AppState, click: ClickEvent) -> (r: Result<
    AggregationResult,
    ClickError,
>)
    ensures
        final(state)@ == after_click(old(state)@, click@),
        store_consistent(final(state)@),
        match r {
            Ok(result) => click@.well_formed() && Some(result@) == snapshot_of(
                final(state)@,
                click@.campaign_id,
            ),
            Err(error) => !click@.well_formed() && error == ClickError::EmptyCampaignId,
        },
{
    proof {
        use_type_invariant(&*state);
        lemma_view_is_consistent(state.index@, state.entries@);
    }
    if click.campaign_id.as_str().is_empty() {
        return Err(ClickError::EmptyCampaignId);
    }
    let mut taken = AppState::new();
    std::mem::swap(state, &mut taken);
    let AppState { index, entries } = taken;
    let mut index = index;
    let mut entries = entries;
    let result = record_into(&mut index, &mut entries, click);
    proof {
        lemma_view_is_consistent(index@, entries@);
    }
    *state = AppState { index, entries };
    Ok(result)
}

/// The snapshot of one campaign, or `CampaignNotFound` if no click was ever recorded
/// for it. The store is only read.
pub fn get_campaign_stats(state: &AppState, campaign_id: &str) -> (r: Result<
    AggregationResult,
    ClickError,
>)
    ensures
        store_consistent(state@),
        r is Ok <==> state@.contains_key(campaign_id@),
        match r {
            Ok(result) => Some(result@) == snapshot_of(state@, campaign_id@),
            Err(error) => error == ClickError::CampaignNotFound && !state@.contains_key(
                campaign_id@,
            ),
        },
{
    proof {
        use_type_invariant(state);
        lemma_view_is_consistent(state.index@, state.entries@);
    }
    match state.index.get(campaign_id) {
        Some(slot) => Ok(snapshot(&state.entries[*slot])),
        None => Err(ClickError::CampaignNotFound),
    }
}

/// A copy of the raw statistics of every campaign, each under its identifier. The store
/// is only read; the copy holds every user and every instant recorded so far.
pub fn get_all_stats(state: &AppState) -> (r: Vec<(String, CampaignStats)>)
    ensures
        store_consistent(state@),
        is_full_dump(r@, state@),
{
    proof {
        use_type_invariant(state);
        lemma_view_is_consistent(state.index@, state.entries@);
    }
    let mut dump: Vec<(String, CampaignStats)> = Vec::new();
    let mut i: usize = 0;
    while i < state.entries.len()
        invariant
            i <= state.entries.len(),
            dump.len() == i,
            forall|k: int|
                0 <= k < i ==> {
                    &&& (#[trigger] dump[k]).0@ == state.entries[k].campaign_id@
                    &&& dump[k].1.total_clicks == state.entries[k].stats.total_clicks
                    &&& dump[k].1.unique_users@ == state.entries[k].stats.unique_users@
                    &&& dump[k].1.click_timestamps@ == state.entries[k].stats.click_timestamps@
                },
        decreases state.entries.len() - i,
    {
        let entry = &state.entries[i];
        dump.push((entry.campaign_id.clone(), entry.stats.clone()));
        i = i + 1;
    }
    proof {
        assert forall|id: Seq<char>| #[trigger] state@.contains_key(id) implies exists|k: int|
            0 <= k < dump.len() && (#[trigger] dump[k]).0@ == id by {
            assert(dump[state.index@[id] as int].0@ == id);
        }
    }
    dump
}

} // verus!
