//! Per-channel flow quotas for cross-system asset transfers.
//!
//! A channel's quota bounds the net value that may move through it within a
//! rolling time window, expressed as a percentage of the channel's total
//! value. The engine tracks one [`state::Flow`] accumulator per channel,
//! expires it lazily on the check path, and evaluates every configured
//! [`state::Quota`] against the shared accumulator, denying the transfer on
//! the first violation.

pub mod contract;
pub mod error;
pub mod msg;
pub mod state;
