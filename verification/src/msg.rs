//! Messages accepted from the host: channel registration and transfer checks.

use vstd::prelude::*;

verus! {

/// Raw quota configuration as the governance side supplies it: percentages
/// are not yet clamped, and the duration is nominal (the engine resets on the
/// fixed weekly interval regardless).
#[derive(Debug)]
pub struct QuotaMsg {
    pub name: String,
    /// Nominal rule period in seconds; carried but not consulted by expiry.
    pub duration: u64,
    /// Allowed percentages `(send, recv)` of the channel value.
    pub send_recv: (u32, u32),
}

impl QuotaMsg {
    pub fn new(name: &str, seconds: u64, send_percentage: u32, recv_percentage: u32) -> (m:
        QuotaMsg)
        ensures
            m.name@ == name@,
            m.duration == seconds,
            m.send_recv == (send_percentage, recv_percentage),
    {
        QuotaMsg {
            name: name.to_string(),
            duration: seconds,
            send_recv: (send_percentage, recv_percentage),
        }
    }
}

impl Clone for QuotaMsg {
    fn clone(&self) -> (c: Self)
        ensures
            c == *self,
    {
        QuotaMsg { name: self.name.clone(), duration: self.duration, send_recv: self.send_recv }
    }
}

/// Configuration accepted once, at registration time.
#[derive(Debug)]
pub struct InstantiateMsg {
    /// The only principal permitted to register channels.
    pub gov_module: String,
    /// The only principal permitted to invoke transfer checks.
    pub ibc_module: String,
    /// One quota per channel; a later entry for the same channel replaces an
    /// earlier one.
    pub channel_quotas: Vec<(String, QuotaMsg)>,
}

/// One host-driven operation.
#[derive(Debug)]
pub enum ExecuteMsg {
    SendPacket { channel_id: String, channel_value: u128, funds: u128 },
    RecvPacket { channel_id: String, channel_value: u128, funds: u128 },
    AddChannel {},
    RemoveChannel {},
}

} // verus!
