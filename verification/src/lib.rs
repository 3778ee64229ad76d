//! Live click statistics for advertising campaigns.
//!
//! The crate keeps, for every campaign that has received at least one click, the number of
//! clicks, the set of distinct users and the click instants in arrival order, and derives a
//! click rate from them on every read. Every function is verified against a mathematical
//! model of the store: a map from campaign identifier to the campaign's statistics.
//!
//! Two things are taken on trust, both in [`timestamp`]: which readings chrono has a
//! date-time for, and how many whole seconds chrono counts between two of them. The rate
//! is kept exact, as clicks over seconds; callers that want a floating-point number divide
//! the two.

pub mod history;
pub mod models;
pub mod rate;
pub mod store;
pub mod timestamp;

pub use models::AggregationResult;
pub use models::CampaignStats;
pub use models::ClickEvent;
pub use rate::ClickRate;
pub use store::get_all_stats;
pub use store::get_campaign_stats;
pub use store::record_click;
pub use store::AppState;
pub use store::ClickError;
pub use timestamp::Timestamp;
