//! The click rate of a campaign: clicks counted over the seconds between the first and the
//! last click in arrival order, with the span floored at one second.

use vstd::prelude::*;
use crate::timestamp::seconds_between;
use crate::timestamp::Timestamp;

verus! {

/// A rate as a ratio of two natural numbers: `clicks` clicks in `seconds` seconds.
pub struct Rate {
    pub clicks: nat,
    pub seconds: nat,
}

/// A click rate, kept exact as a ratio: `clicks` clicks in `seconds` seconds. The quotient
/// of the two is the rate in clicks per second; `seconds` is never zero in a rate that this
/// crate computed.
#[derive(Clone, Copy, Debug, PartialEq, Eq)]
pub struct ClickRate {
    pub clicks: u64,
    pub seconds: u64,
}

impl View for ClickRate {
    type V = Rate;

    open spec fn view(&self) -> Rate {
        Rate { clicks: self.clicks as nat, seconds: self.seconds as nat }
    }
}

impl Rate {
    /// The rate of a campaign with fewer than two clicks: nothing per second.
    pub open spec fn zero() -> Rate {
        Rate { clicks: 0, seconds: 1 }
    }
}

/// The rate of `clicks` clicks whose first and last arrival lie `span_seconds` whole
/// seconds apart. A span under one second, zero or negative, counts as one second.
pub open spec fn rate_over(clicks: nat, span_seconds: int) -> Rate {
    Rate { clicks, seconds: if span_seconds > 1 { span_seconds as nat } else { 1 } }
}

/// The rate derived from the click instants of one campaign, in arrival order.
///
/// With fewer than two clicks the rate is zero. Otherwise all clicks are counted over the
/// whole seconds from the first arrival to the last arrival. The instants are not sorted:
/// when the last click to arrive carries an earlier instant than the first, the span is
/// negative and floors at one second.
pub open spec fn rate_of(timestamps: Seq<Timestamp>) -> Rate {
    if timestamps.len() > 1 {
        rate_over(timestamps.len(), seconds_between(timestamps.first(), timestamps.last()))
    } else {
        Rate::zero()
    }
}

/// The rate of `clicks` clicks over a span of `span_seconds` whole seconds.
pub fn rate_for_span(clicks: usize, span_seconds: i64) -> (r: ClickRate)
    ensures
        r@ == rate_over(clicks as nat, span_seconds as int),
{
    let seconds: u64 = if span_seconds > 1 {
        span_seconds as u64
    } else {
        1
    };
    ClickRate { clicks: clicks as u64, seconds }
}

/// The rate of a campaign whose clicks arrived at `timestamps`, in that order.
pub fn click_rate(timestamps: &Vec<Timestamp>) -> (r: ClickRate)
    ensures
        r@ == rate_of(timestamps@),
{
    let count: usize = timestamps.len();
    if count > 1 {
        let span: i64 = timestamps[0].seconds_until(&timestamps[count - 1]);
        rate_for_span(count, span)
    } else {
        ClickRate { clicks: 0, seconds: 1 }
    }
}

} // verus!
