//! Policy and accumulator types: `Quota`, `Flow`, and the transfer direction.

use crate::msg::QuotaMsg;
use vstd::prelude::*;

verus! {

/// Length, in seconds, of the fixed interval after which a channel's flow
/// accumulators reset. Expiry is detected lazily on the check path; no
/// background timer exists. Every quota uses this interval regardless of the
/// nominal duration it carries.
pub const RESET_TIME_WEEKLY: u64 = 60 * 60 * 24 * 7;

/// Timestamps are nanosecond counts as reported by the host clock.
pub const NANOS_PER_SECOND: u64 = 1_000_000_000;

/// True when a whole reset interval past `now` still fits in `u64`, so that a
/// fresh window end can be computed without overflow.
pub open spec fn fits_window(now: u64) -> bool {
    now + RESET_TIME_WEEKLY * NANOS_PER_SECOND <= u64::MAX
}

/// The instant one reset interval after `now`.
pub open spec fn spec_week_from(now: u64) -> u64
    recommends
        fits_window(now),
{
    (now + RESET_TIME_WEEKLY * NANOS_PER_SECOND) as u64
}

/// Computes the end of a window opened at `now`.
pub fn week_from(now: u64) -> (t: u64)
    requires
        fits_window(now),
    ensures
        t == spec_week_from(now),
{
    now + RESET_TIME_WEEKLY * NANOS_PER_SECOND
}

/// Direction of a transfer through a channel.
#[derive(Debug, Clone, Copy, PartialEq, Eq, Structural)]
pub enum FlowType {
    In,
    Out,
}

/// Per-channel accumulator of directional volume within the current window,
/// together with the instant at which the window ends.
#[derive(Debug, Clone, Copy, PartialEq, Eq, Structural)]
pub struct Flow {
    pub inflow: u128,
    pub outflow: u128,
    pub period_end: u64,
}

impl Flow {
    /// Net utilized volume: the absolute difference of the accumulators, so
    /// opposing transfers cancel instead of double-counting.
    pub open spec fn spec_balance(self) -> u128 {
        if self.inflow >= self.outflow {
            (self.inflow - self.outflow) as u128
        } else {
            (self.outflow - self.inflow) as u128
        }
    }

    /// A window is expired strictly after its end.
    pub open spec fn spec_is_expired(self, now: u64) -> bool {
        self.period_end < now
    }

    /// The flow after accumulating `value` in `direction`; addition
    /// saturates at the representable maximum.
    pub open spec fn spec_add_flow(self, direction: FlowType, value: u128) -> Flow {
        match direction {
            FlowType::In => (Flow { inflow: self.inflow.saturating_add(value), ..self }),
            FlowType::Out => (Flow { outflow: self.outflow.saturating_add(value), ..self }),
        }
    }

    /// A fresh accumulator whose window ends one reset interval after `now`.
    pub fn new(inflow: u128, outflow: u128, now: u64) -> (f: Flow)
        requires
            fits_window(now),
        ensures
            f == (Flow { inflow, outflow, period_end: spec_week_from(now) }),
    {
        Flow { inflow, outflow, period_end: week_from(now) }
    }

    pub fn balance(&self) -> (b: u128)
        ensures
            b == self.spec_balance(),
    {
        if self.inflow >= self.outflow {
            self.inflow - self.outflow
        } else {
            self.outflow - self.inflow
        }
    }

    pub fn is_expired(&self, now: u64) -> (e: bool)
        ensures
            e == self.spec_is_expired(now),
    {
        self.period_end < now
    }

    /// Begins a new window: zeroes both accumulators and moves the window end
    /// one reset interval past `now`.
    pub fn expire(&mut self, now: u64)
        requires
            fits_window(now),
        ensures
            *final(self) == (Flow { inflow: 0, outflow: 0, period_end: spec_week_from(now) }),
    {
        self.inflow = 0;
        self.outflow = 0;
        self.period_end = week_from(now);
    }

    /// Adds `value` to the accumulator selected by `direction`, saturating
    /// instead of wrapping on overflow.
    pub fn add_flow(&mut self, direction: FlowType, value: u128)
        ensures
            *final(self) == old(self).spec_add_flow(direction, value),
    {
        match direction {
            FlowType::In => self.inflow = self.inflow.saturating_add(value),
            FlowType::Out => self.outflow = self.outflow.saturating_add(value),
        }
    }
}

/// Law: the balance nets opposing flows. From any flow whose accumulators are
/// level, sending `x` and then receiving `x` returns the balance to exactly
/// zero, for every `x`.
pub proof fn lemma_balance_symmetric(f: Flow, x: u128)
    requires
        f.spec_balance() == 0,
    ensures
        f.spec_add_flow(FlowType::Out, x).spec_add_flow(FlowType::In, x).spec_balance() == 0,
{
}

/// Immutable policy for one rule on one channel: the allowed percentage of
/// the channel value, per direction, and the nominal rule period.
#[derive(Debug)]
pub struct Quota {
    pub name: String,
    pub max_percentage_send: u32,
    pub max_percentage_recv: u32,
    /// Nominal period in seconds; expiry deliberately uses the fixed weekly
    /// interval instead.
    pub duration: u64,
}

impl Quota {
    /// Percentages are clamped to `[0, 100]` at construction, and every later
    /// computation relies on that.
    pub open spec fn wf(self) -> bool {
        self.max_percentage_send <= 100 && self.max_percentage_recv <= 100
    }

    /// The percentage bounding the given direction.
    pub open spec fn spec_max_percentage(self, direction: FlowType) -> u32 {
        match direction {
            FlowType::In => self.max_percentage_recv,
            FlowType::Out => self.max_percentage_send,
        }
    }

    /// Capacity is the allowed percentage of the channel value, with floor
    /// division.
    pub open spec fn spec_capacity_at(self, total_value: u128, direction: FlowType) -> int {
        (total_value as int) * (self.spec_max_percentage(direction) as int) / 100
    }

    /// The quota built from a raw message: each percentage clamped,
    /// independently, to at most 100.
    pub open spec fn spec_from_msg(msg: QuotaMsg) -> Quota {
        Quota {
            name: msg.name,
            max_percentage_send: if msg.send_recv.0 > 100 {
                100u32
            } else {
                msg.send_recv.0
            },
            max_percentage_recv: if msg.send_recv.1 > 100 {
                100u32
            } else {
                msg.send_recv.1
            },
            duration: msg.duration,
        }
    }

    /// Calculates the max capacity based on the total value of the channel.
    pub fn capacity_at(&self, total_value: &u128, direction: &FlowType) -> (cap: u128)
        requires
            self.wf(),
            *total_value <= u128::MAX as int / 100,
        ensures
            cap == self.spec_capacity_at(*total_value, *direction),
            cap <= *total_value,
    {
        let max_percentage = match direction {
            FlowType::In => self.max_percentage_recv,
            FlowType::Out => self.max_percentage_send,
        };
        proof {
            lemma_capacity_in_range(*total_value, max_percentage);
        }
        *total_value * (max_percentage as u128) / 100u128
    }
}

impl From<QuotaMsg> for Quota {
    fn from(msg: QuotaMsg) -> (q: Quota) {
        let send = if msg.send_recv.0 > 100 {
            100
        } else {
            msg.send_recv.0
        };
        let recv = if msg.send_recv.1 > 100 {
            100
        } else {
            msg.send_recv.1
        };
        Quota {
            name: msg.name,
            max_percentage_send: send,
            max_percentage_recv: recv,
            duration: msg.duration,
        }
    }
}

impl vstd::std_specs::convert::FromSpecImpl<QuotaMsg> for Quota {
    open spec fn obeys_from_spec() -> bool {
        true
    }

    open spec fn from_spec(msg: QuotaMsg) -> Quota {
        Quota::spec_from_msg(msg)
    }
}

/// With a clamped percentage, and a channel value that leaves room for the
/// percentage product, the computation stays representable and the capacity
/// never exceeds the channel value.
proof fn lemma_capacity_in_range(total_value: u128, percentage: u32)
    requires
        percentage <= 100,
        total_value <= u128::MAX as int / 100,
    ensures
        (total_value as int) * (percentage as int) <= u128::MAX,
        (total_value as int) * (percentage as int) / 100 <= total_value,
{
    let v = total_value as int;
    let p = percentage as int;
    assert(v * p <= v * 100) by (nonlinear_arith)
        requires
            0 <= v,
            p <= 100,
    ;
    assert(v * 100 <= (u128::MAX as int / 100) * 100) by (nonlinear_arith)
        requires
            v <= u128::MAX as int / 100,
    ;
    vstd::arithmetic::div_mod::lemma_div_is_ordered(v * p, v * 100, 100);
    vstd::arithmetic::div_mod::lemma_div_multiples_vanish(v, 100);
}

/// Law: percentages above 100 are clamped down at construction, never
/// rejected, and in-range percentages pass through unchanged. Every
/// constructed quota is well formed.
pub proof fn lemma_quota_percentages_clamped(msg: QuotaMsg)
    ensures
        Quota::spec_from_msg(msg).wf(),
        msg.send_recv.0 <= 100 ==> Quota::spec_from_msg(msg).max_percentage_send
            == msg.send_recv.0,
        msg.send_recv.1 <= 100 ==> Quota::spec_from_msg(msg).max_percentage_recv
            == msg.send_recv.1,
        msg.send_recv.0 > 100 ==> Quota::spec_from_msg(msg).max_percentage_send == 100,
        msg.send_recv.1 > 100 ==> Quota::spec_from_msg(msg).max_percentage_recv == 100,
{
}

/// Law: capacity uses floor division and is monotonic non-decreasing in both
/// the channel value and the percentage.
pub proof fn lemma_capacity_monotonic(q1: Quota, q2: Quota, direction: FlowType, v1: u128, v2: u128)
    requires
        v1 <= v2,
        q1.spec_max_percentage(direction) <= q2.spec_max_percentage(direction),
    ensures
        q1.spec_capacity_at(v1, direction) <= q2.spec_capacity_at(v2, direction),
{
    let p1 = q1.spec_max_percentage(direction) as int;
    let p2 = q2.spec_max_percentage(direction) as int;
    assert((v1 as int) * p1 <= (v2 as int) * p2) by (nonlinear_arith)
        requires
            0 <= v1 <= v2,
            0 <= p1 <= p2,
    ;
    vstd::arithmetic::div_mod::lemma_div_is_ordered((v1 as int) * p1, (v2 as int) * p2, 100);
}

} // verus!
