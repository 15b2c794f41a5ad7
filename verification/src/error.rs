//! Error taxonomy: every failure aborts the whole invocation and commits no
//! state.

use vstd::prelude::*;

verus! {

#[derive(Debug)]
pub enum ContractError {
    /// The caller is not the designated transfer principal.
    Unauthorized {},
    /// The accumulated balance for some quota exceeds its capacity. Carries
    /// the channel and the instant at which the window (and the volume)
    /// resets, as a retry-after hint.
    RateLimitExceded { channel: String, reset: u64 },
    /// The named channel was never registered.
    UnknownChannel { channel: String },
    /// Channel addition and removal after registration are declared but not
    /// implemented; calling them fails loudly instead of silently passing.
    Unimplemented {},
}

} // verus!
