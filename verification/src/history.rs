//! What holds of the store after any history of clicks.
//!
//! A history is the sequence of clicks handed to the store since it was created, in the
//! order in which they arrived. The statements below are about the model of the store, the
//! one that the contracts of the store's functions speak of.

use vstd::prelude::*;
use crate::models::CampaignStats;
use crate::models::Click;
use crate::models::Snapshot;
use crate::models::StatsModel;
use crate::rate::rate_over;
use crate::rate::Rate;
use crate::store::after_click;
use crate::store::is_full_dump;
use crate::store::snapshot_of;
use crate::store::stats_before;
use crate::store::store_consistent;
use crate::timestamp::leap_rules_apply;
use crate::timestamp::nanos_between;
use crate::timestamp::seconds_between;
use crate::timestamp::Timestamp;

verus! {

/// The store that a new store becomes when the clicks of `clicks` are handed to it one
/// after the other.
pub open spec fn replay(clicks: Seq<Click>) -> Map<Seq<char>, StatsModel>
    decreases clicks.len(),
{
    if clicks.len() == 0 {
        Map::empty()
    } else {
        after_click(replay(clicks.drop_last()), clicks.last())
    }
}

/// The clicks of `clicks` that were recorded for `campaign_id`, in arrival order.
pub open spec fn recorded_for(clicks: Seq<Click>, campaign_id: Seq<char>) -> Seq<Click> {
    clicks.filter(|click: Click| click.well_formed() && click.campaign_id == campaign_id)
}

/// The users of `clicks`, one per click.
pub open spec fn users_of(clicks: Seq<Click>) -> Seq<Seq<char>> {
    clicks.map_values(|click: Click| click.user_id)
}

/// The instants of `clicks`, one per click.
pub open spec fn instants_of(clicks: Seq<Click>) -> Seq<Timestamp> {
    clicks.map_values(|click: Click| click.timestamp)
}

/// The statistics of a campaign whose recorded clicks are `clicks`.
pub open spec fn stats_of(clicks: Seq<Click>) -> StatsModel {
    StatsModel {
        total_clicks: clicks.len(),
        unique_users: users_of(clicks).to_set(),
        click_timestamps: instants_of(clicks),
    }
}

proof fn lemma_stats_of_nothing()
    ensures
        stats_of(Seq::<Click>::empty()) == StatsModel::empty(),
{
    assert(users_of(Seq::<Click>::empty()).to_set() =~= Set::<Seq<char>>::empty());
    assert(instants_of(Seq::<Click>::empty()) =~= Seq::<Timestamp>::empty());
}

proof fn lemma_stats_of_push(clicks: Seq<Click>, click: Click)
    ensures
        stats_of(clicks.push(click)) == stats_of(clicks).with_click(click.user_id, click.timestamp),
{
    assert(users_of(clicks.push(click)) =~= users_of(clicks).push(click.user_id));
    users_of(clicks).lemma_push_to_set_commute(click.user_id);
    assert(instants_of(clicks.push(click)) =~= instants_of(clicks).push(click.timestamp));
}

/// Handing in a click never takes anything away: a campaign that is in the store stays in
/// it, its counter does not go down, it keeps every user it had, and its instants are
/// only appended to.
pub proof fn lemma_click_only_adds(
    store: Map<Seq<char>, StatsModel>,
    click: Click,
    campaign_id: Seq<char>,
)
    requires
        store.contains_key(campaign_id),
    ensures
        after_click(store, click).contains_key(campaign_id),
        store[campaign_id].total_clicks <= after_click(store, click)[campaign_id].total_clicks,
        store[campaign_id].unique_users.subset_of(
            after_click(store, click)[campaign_id].unique_users,
        ),
        store[campaign_id].click_timestamps.is_prefix_of(
            after_click(store, click)[campaign_id].click_timestamps,
        ),
{
}

/// Handing in a click keeps a consistent store consistent.
pub proof fn lemma_click_keeps_store_consistent(store: Map<Seq<char>, StatsModel>, click: Click)
    requires
        store_consistent(store),
    ensures
        store_consistent(after_click(store, click)),
{
    if click.well_formed() {
        let before = stats_before(store, click.campaign_id);
        let after = before.with_click(click.user_id, click.timestamp);
        assert(after.consistent()) by {
            if store.contains_key(click.campaign_id) {
                assert(store[click.campaign_id].consistent());
                if before.unique_users.contains(click.user_id) {
                    assert(after.unique_users =~= before.unique_users);
                }
            }
        }
        assert forall|campaign_id: Seq<char>| #[trigger]
            after_click(store, click).contains_key(campaign_id) implies after_click(
            store,
            click,
        )[campaign_id].consistent() by {
            if campaign_id != click.campaign_id {
                assert(store.contains_key(campaign_id));
            }
        }
    }
}

/// After any history, a campaign is in the store exactly if a click was recorded for it,
/// and its statistics are those of its recorded clicks: their number, the set of their
/// users, and their instants in arrival order.
pub proof fn lemma_replay_gathers_clicks(clicks: Seq<Click>, campaign_id: Seq<char>)
    ensures
        replay(clicks).contains_key(campaign_id) <==> recorded_for(clicks, campaign_id).len() > 0,
        replay(clicks).contains_key(campaign_id) ==> replay(clicks)[campaign_id] == stats_of(
            recorded_for(clicks, campaign_id),
        ),
    decreases clicks.len(),
{
    reveal(Seq::filter);
    if clicks.len() > 0 {
        let earlier = clicks.drop_last();
        let click = clicks.last();
        lemma_replay_gathers_clicks(earlier, campaign_id);
        lemma_stats_of_push(recorded_for(earlier, campaign_id), click);
        lemma_stats_of_nothing();
        if click.well_formed() && click.campaign_id == campaign_id {
            assert(recorded_for(clicks, campaign_id) == recorded_for(earlier, campaign_id).push(
                click,
            ));
            if !replay(earlier).contains_key(campaign_id) {
                assert(recorded_for(earlier, campaign_id) =~= Seq::<Click>::empty());
            }
        } else {
            assert(recorded_for(clicks, campaign_id) == recorded_for(earlier, campaign_id));
        }
    }
}

/// After any history, the counter of a campaign is the number of clicks that were
/// recorded for it, and one instant is kept for each of them. A campaign that is not in
/// the store counts as one without clicks.
pub proof fn lemma_total_clicks_counts_records(clicks: Seq<Click>, campaign_id: Seq<char>)
    ensures
        stats_before(replay(clicks), campaign_id).total_clicks == recorded_for(
            clicks,
            campaign_id,
        ).len(),
        stats_before(replay(clicks), campaign_id).click_timestamps == instants_of(
            recorded_for(clicks, campaign_id),
        ),
{
    lemma_replay_gathers_clicks(clicks, campaign_id);
    lemma_stats_of_nothing();
    if !replay(clicks).contains_key(campaign_id) {
        assert(recorded_for(clicks, campaign_id) =~= Seq::<Click>::empty());
    }
}

/// After any history, a campaign has at most as many distinct users as clicks, and
/// exactly as many if and only if no two of its recorded clicks came from the same user.
pub proof fn lemma_unique_users_bounded(clicks: Seq<Click>, campaign_id: Seq<char>)
    ensures
        stats_before(replay(clicks), campaign_id).unique_users == users_of(
            recorded_for(clicks, campaign_id),
        ).to_set(),
        stats_before(replay(clicks), campaign_id).unique_users.finite(),
        stats_before(replay(clicks), campaign_id).unique_users.len() <= stats_before(
            replay(clicks),
            campaign_id,
        ).total_clicks,
        stats_before(replay(clicks), campaign_id).unique_users.len() == stats_before(
            replay(clicks),
            campaign_id,
        ).total_clicks <==> users_of(recorded_for(clicks, campaign_id)).no_duplicates(),
{
    lemma_replay_gathers_clicks(clicks, campaign_id);
    lemma_stats_of_nothing();
    if !replay(clicks).contains_key(campaign_id) {
        assert(recorded_for(clicks, campaign_id) =~= Seq::<Click>::empty());
    }
    let users = users_of(recorded_for(clicks, campaign_id));
    vstd::seq_lib::seq_to_set_is_finite(users);
    users.lemma_cardinality_of_set();
    if users.no_duplicates() {
        users.unique_seq_to_set();
    }
    if users.to_set().len() == users.len() {
        users.lemma_no_dup_set_cardinality();
    }
}

/// After any history, the statistics of every campaign in the store are consistent.
pub proof fn lemma_replay_is_consistent(clicks: Seq<Click>)
    ensures
        store_consistent(replay(clicks)),
{
    assert forall|campaign_id: Seq<char>| #[trigger]
        replay(clicks).contains_key(campaign_id) implies replay(
        clicks,
    )[campaign_id].consistent() by {
        lemma_replay_gathers_clicks(clicks, campaign_id);
        lemma_unique_users_bounded(clicks, campaign_id);
        let users = users_of(recorded_for(clicks, campaign_id));
        assert(users.to_set().contains(users[0]));
        if users.to_set().len() == 0 {
            assert(users.to_set() =~= Set::<Seq<char>>::empty());
        }
    }
}

/// A campaign without a recorded click has no snapshot, and the first recorded click
/// gives it one with one click, one user and a rate of zero.
pub proof fn lemma_campaign_appears_with_first_click(clicks: Seq<Click>, campaign_id: Seq<char>)
    ensures
        recorded_for(clicks, campaign_id).len() == 0 ==> snapshot_of(replay(clicks), campaign_id)
            is None,
        recorded_for(clicks, campaign_id).len() == 1 ==> snapshot_of(replay(clicks), campaign_id)
            == Some(
            Snapshot { campaign_id, total_clicks: 1, unique_users: 1, clicks_per_second: Rate::zero() },
        ),
{
    lemma_replay_gathers_clicks(clicks, campaign_id);
    if recorded_for(clicks, campaign_id).len() == 1 {
        lemma_replay_is_consistent(clicks);
    }
}

/// With two or more recorded clicks, the rate of a campaign counts all of them over the
/// whole seconds from the first click to arrive to the last click to arrive, floored at one
/// second. The instants in between, and which of the two is the later one, play no part.
pub proof fn lemma_rate_spans_arrivals(clicks: Seq<Click>, campaign_id: Seq<char>)
    requires
        recorded_for(clicks, campaign_id).len() >= 2,
    ensures
        snapshot_of(replay(clicks), campaign_id) matches Some(snapshot)
            && snapshot.clicks_per_second == rate_over(
            recorded_for(clicks, campaign_id).len(),
            seconds_between(
                recorded_for(clicks, campaign_id).first().timestamp,
                recorded_for(clicks, campaign_id).last().timestamp,
            ),
        ),
{
    lemma_replay_gathers_clicks(clicks, campaign_id);
}

/// When the first and the last click to arrive carry the same instant, the span floors at
/// one second: the rate is the number of clicks per one second.
pub proof fn lemma_same_instant_floors_span(clicks: Seq<Click>, campaign_id: Seq<char>)
    requires
        recorded_for(clicks, campaign_id).len() >= 2,
        recorded_for(clicks, campaign_id).first().timestamp == recorded_for(
            clicks,
            campaign_id,
        ).last().timestamp,
    ensures
        snapshot_of(replay(clicks), campaign_id) matches Some(snapshot)
            && snapshot.clicks_per_second == (Rate {
            clicks: recorded_for(clicks, campaign_id).len(),
            seconds: 1,
        }),
{
    lemma_rate_spans_arrivals(clicks, campaign_id);
}

/// When the last click to arrive carries an instant that is not later than that of the
/// first click to arrive, neither inside a leap second, the span floors at one second as
/// well: arrival order decides, and the instants are not put in order.
pub proof fn lemma_late_arrival_floors_span(clicks: Seq<Click>, campaign_id: Seq<char>)
    requires
        recorded_for(clicks, campaign_id).len() >= 2,
        !leap_rules_apply(
            recorded_for(clicks, campaign_id).first().timestamp,
            recorded_for(clicks, campaign_id).last().timestamp,
        ),
        nanos_between(
            recorded_for(clicks, campaign_id).first().timestamp,
            recorded_for(clicks, campaign_id).last().timestamp,
        ) <= 0,
    ensures
        snapshot_of(replay(clicks), campaign_id) matches Some(snapshot)
            && snapshot.clicks_per_second == (Rate {
            clicks: recorded_for(clicks, campaign_id).len(),
            seconds: 1,
        }),
{
    lemma_rate_spans_arrivals(clicks, campaign_id);
}

/// Two reads of the same campaign from the same store give the same snapshot.
pub proof fn lemma_reads_repeat(
    store: Map<Seq<char>, StatsModel>,
    campaign_id: Seq<char>,
    first: Option<Snapshot>,
    second: Option<Snapshot>,
)
    requires
        first == snapshot_of(store, campaign_id),
        second == snapshot_of(store, campaign_id),
    ensures
        first == second,
{
}

/// A full dump taken after any history lists exactly the campaigns for which a click was
/// recorded, each with its counter, its distinct users and its instants.
pub proof fn lemma_dump_lists_recorded_campaigns(
    clicks: Seq<Click>,
    dump: Seq<(String, CampaignStats)>,
    campaign_id: Seq<char>,
)
    requires
        is_full_dump(dump, replay(clicks)),
    ensures
        (exists|i: int| 0 <= i < dump.len() && (#[trigger] dump[i]).0@ == campaign_id)
            <==> recorded_for(clicks, campaign_id).len() > 0,
        forall|i: int|
            0 <= i < dump.len() && (#[trigger] dump[i]).0@ == campaign_id ==> {
                &&& dump[i].1.total_clicks == recorded_for(clicks, campaign_id).len()
                &&& dump[i].1.unique_users@.len() == users_of(
                    recorded_for(clicks, campaign_id),
                ).to_set().len()
                &&& dump[i].1.click_timestamps@ == instants_of(recorded_for(clicks, campaign_id))
            },
{
    lemma_replay_gathers_clicks(clicks, campaign_id);
    assert forall|i: int|
        0 <= i < dump.len() && (#[trigger] dump[i]).0@ == campaign_id implies dump[i].1.unique_users@.len()
        == users_of(recorded_for(clicks, campaign_id)).to_set().len() by {
        let listed = crate::models::user_ids(dump[i].1.unique_users@);
        listed.unique_seq_to_set();
    }
}

} // verus!
