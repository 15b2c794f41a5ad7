//! The rate limiter engine: the channel registry and the check-and-apply
//! path that evaluates every quota of a channel against one shared flow.

use crate::error::ContractError;
use crate::msg::{ExecuteMsg, InstantiateMsg, QuotaMsg};
use crate::state::{
    fits_window, lemma_quota_percentages_clamped, spec_week_from, Flow, FlowType, Quota,
};
use vstd::prelude::*;

verus! {

/// Everything the registry holds for one channel: its ordered quota list and
/// the single flow accumulator that all of those quotas share.
#[derive(Debug)]
pub struct Channel {
    pub channel_id: String,
    pub quotas: Vec<Quota>,
    pub flow: Flow,
}

/// The whole persistent state: the two authorized principals and the
/// per-channel configuration and runtime state.
#[derive(Debug)]
pub struct ContractState {
    /// The only principal permitted to register channels.
    pub gov_module: String,
    /// The only principal permitted to invoke transfer checks.
    pub ibc_module: String,
    pub channels: Vec<Channel>,
}

/// What one passed quota reports back: the balance it observed, the capacity
/// it allowed, and the end of the window it counted in.
#[derive(Debug, Clone, Copy, PartialEq, Eq, Structural)]
pub struct QuotaUsage {
    pub used: u128,
    pub max: u128,
    pub period_end: u64,
}

/// Observable output of a successful check.
#[derive(Debug)]
pub enum TransferResponse {
    /// The channel has no quota configured: every amount passes and no state
    /// is touched.
    NoQuota,
    /// Every configured quota passed; one usage record per quota, in
    /// configuration order.
    Applied { usages: Vec<QuotaUsage> },
}

/// No two registry entries name the same channel.
pub open spec fn unique_channel_ids(s: Seq<Channel>) -> bool {
    forall|a: int, b: int|
        0 <= a < b < s.len() ==> s[a].channel_id@ != s[b].channel_id@
}

/// The registry sequence as a map from channel id to (quota list, flow).
pub open spec fn channel_map_of(s: Seq<Channel>) -> Map<Seq<char>, (Seq<Quota>, Flow)>
    decreases s.len(),
{
    if s.len() == 0 {
        Map::empty()
    } else {
        channel_map_of(s.drop_last()).insert(
            s.last().channel_id@,
            (s.last().quotas@, s.last().flow),
        )
    }
}

impl ContractState {
    /// Channel ids are unique and every stored quota carries clamped
    /// percentages.
    pub open spec fn wf(self) -> bool {
        &&& unique_channel_ids(self.channels@)
        &&& forall|i: int, j: int|
            0 <= i < self.channels@.len() && 0 <= j < self.channels@[i].quotas@.len()
                ==> self.channels@[i].quotas@[j].wf()
    }

    /// The registry viewed as a map keyed by channel id.
    pub open spec fn channel_map(self) -> Map<Seq<char>, (Seq<Quota>, Flow)> {
        channel_map_of(self.channels@)
    }

    /// Read-only accessor for the current flow state of a channel; no side
    /// effects.
    pub fn get_flow(&self, channel_id: &String) -> (r: Option<Flow>)
        requires
            self.wf(),
        ensures
            match r {
                Some(f) => self.channel_map().dom().contains(channel_id@) && f
                    == self.channel_map()[channel_id@].1,
                None => !self.channel_map().dom().contains(channel_id@),
            },
    {
        proof {
            lemma_channel_map_contains(self.channels@, channel_id@);
        }
        match find_channel(&self.channels, channel_id) {
            Some(i) => {
                proof {
                    lemma_channel_map_index(self.channels@, i as int);
                }
                Some(self.channels[i].flow)
            },
            None => None,
        }
    }
}

/// A key is in the map exactly when some registry entry carries it.
proof fn lemma_channel_map_contains(s: Seq<Channel>, id: Seq<char>)
    ensures
        channel_map_of(s).dom().contains(id) <==> exists|k: int|
            0 <= k < s.len() && s[k].channel_id@ == id,
    decreases s.len(),
{
    if s.len() > 0 {
        lemma_channel_map_contains(s.drop_last(), id);
        if s.last().channel_id@ == id {
            assert(s[s.len() - 1].channel_id@ == id);
        } else if channel_map_of(s).dom().contains(id) {
            let k = choose|k: int| 0 <= k < s.len() - 1 && s.drop_last()[k].channel_id@ == id;
            assert(s[k].channel_id@ == id);
        } else if exists|k: int| 0 <= k < s.len() && s[k].channel_id@ == id {
            let k = choose|k: int| 0 <= k < s.len() && s[k].channel_id@ == id;
            assert(s.drop_last()[k].channel_id@ == id);
        }
    }
}

/// With unique ids, the map agrees with the entry at any index.
proof fn lemma_channel_map_index(s: Seq<Channel>, i: int)
    requires
        unique_channel_ids(s),
        0 <= i < s.len(),
    ensures
        channel_map_of(s).dom().contains(s[i].channel_id@),
        channel_map_of(s)[s[i].channel_id@] == (s[i].quotas@, s[i].flow),
    decreases s.len(),
{
    if i < s.len() - 1 {
        assert(unique_channel_ids(s.drop_last()));
        lemma_channel_map_index(s.drop_last(), i);
        assert(s.drop_last()[i] == s[i]);
        assert(s[i].channel_id@ != s.last().channel_id@);
    }
}

/// With unique ids, replacing the entry at an index, keeping its id, is an
/// insert on the map view.
proof fn lemma_channel_map_update(s: Seq<Channel>, i: int, c: Channel)
    requires
        unique_channel_ids(s),
        0 <= i < s.len(),
        c.channel_id@ == s[i].channel_id@,
    ensures
        channel_map_of(s.update(i, c)) == channel_map_of(s).insert(
            c.channel_id@,
            (c.quotas@, c.flow),
        ),
    decreases s.len(),
{
    let t = s.update(i, c);
    if i == s.len() - 1 {
        assert(t.drop_last() =~= s.drop_last());
        assert(t.last() == c);
        assert(channel_map_of(t) =~= channel_map_of(s).insert(c.channel_id@, (c.quotas@, c.flow)));
    } else {
        assert(unique_channel_ids(s.drop_last()));
        assert(t.drop_last() =~= s.drop_last().update(i, c));
        assert(t.last() == s.last());
        assert(s.drop_last()[i] == s[i]);
        lemma_channel_map_update(s.drop_last(), i, c);
        assert(s[i].channel_id@ != s.last().channel_id@);
        assert(channel_map_of(t) =~= channel_map_of(s).insert(c.channel_id@, (c.quotas@, c.flow)));
    }
}

/// Appending an entry with a fresh id is an insert on the map view.
proof fn lemma_channel_map_push(s: Seq<Channel>, c: Channel)
    ensures
        channel_map_of(s.push(c)) == channel_map_of(s).insert(c.channel_id@, (c.quotas@, c.flow)),
{
    assert(s.push(c).drop_last() =~= s);
    assert(s.push(c).last() == c);
}

/// The shared flow after one quota's bookkeeping step: reset if the window
/// has elapsed, then accumulate the attempted amount.
pub open spec fn spec_step_flow(flow: Flow, direction: FlowType, funds: u128, now: u64) -> Flow {
    let settled = if flow.spec_is_expired(now) {
        Flow { inflow: 0, outflow: 0, period_end: spec_week_from(now) }
    } else {
        flow
    };
    settled.spec_add_flow(direction, funds)
}

/// Law: window reset is lazy and fresh. Once `now` is strictly past the
/// window end, the next check starts the accumulators at zero (and opens a
/// window one reset interval past `now`) before applying the new amount,
/// whatever volume had accumulated.
pub proof fn lemma_expired_step_starts_fresh(flow: Flow, direction: FlowType, funds: u128, now: u64)
    requires
        now > flow.period_end,
    ensures
        spec_step_flow(flow, direction, funds, now) == (Flow {
            inflow: 0,
            outflow: 0,
            period_end: spec_week_from(now),
        }).spec_add_flow(direction, funds),
{
}

/// One quota evaluated against the shared flow: the mutated flow, and either
/// the usage record or the reset instant carried by the denial.
pub open spec fn spec_check_quota(
    quota: Quota,
    flow: Flow,
    direction: FlowType,
    channel_value: u128,
    funds: u128,
    now: u64,
) -> (Flow, Result<QuotaUsage, u64>) {
    let stepped = spec_step_flow(flow, direction, funds, now);
    let max = quota.spec_capacity_at(channel_value, direction);
    let used = stepped.spec_balance();
    if used > max {
        (stepped, Err(stepped.period_end))
    } else {
        (
            stepped,
            Ok(QuotaUsage { used, max: max as u128, period_end: stepped.period_end }),
        )
    }
}

/// The whole quota list evaluated in configuration order against the one
/// shared flow. The amount is accumulated once per quota, since each step
/// mutates the shared flow; the first violation aborts the rest.
pub open spec fn spec_eval_quotas(
    quotas: Seq<Quota>,
    flow: Flow,
    direction: FlowType,
    channel_value: u128,
    funds: u128,
    now: u64,
) -> (Flow, Result<Seq<QuotaUsage>, u64>)
    decreases quotas.len(),
{
    if quotas.len() == 0 {
        (flow, Ok(Seq::empty()))
    } else {
        let head = spec_check_quota(quotas[0], flow, direction, channel_value, funds, now);
        match head.1 {
            Err(reset) => (head.0, Err(reset)),
            Ok(usage) => {
                let rest = spec_eval_quotas(
                    quotas.skip(1),
                    head.0,
                    direction,
                    channel_value,
                    funds,
                    now,
                );
                match rest.1 {
                    Err(reset) => (rest.0, Err(reset)),
                    Ok(usages) => (rest.0, Ok(seq![usage] + usages)),
                }
            },
        }
    }
}

/// Evaluates one quota against the shared flow: expires it lazily,
/// accumulates the amount, and compares the resulting balance to the quota's
/// capacity.
fn check_quota(
    quota: &Quota,
    flow: &mut Flow,
    direction: FlowType,
    channel_id: &str,
    channel_value: u128,
    funds: u128,
    now: u64,
) -> (r: Result<QuotaUsage, ContractError>)
    requires
        quota.wf(),
        channel_value <= u128::MAX as int / 100,
        fits_window(now),
    ensures
        ({
            let checked = spec_check_quota(
                *quota,
                *old(flow),
                direction,
                channel_value,
                funds,
                now,
            );
            &&& *final(flow) == checked.0
            &&& match checked.1 {
                Ok(usage) => r == Ok::<QuotaUsage, ContractError>(usage),
                Err(reset) => r matches Err(ContractError::RateLimitExceded {
                    channel,
                    reset: t,
                }) && channel@ == channel_id@ && t == reset,
            }
        }),
{
    let max = quota.capacity_at(&channel_value, &direction);
    if flow.is_expired(now) {
        flow.expire(now);
    }
    flow.add_flow(direction, funds);
    let balance = flow.balance();
    if balance > max {
        Err(ContractError::RateLimitExceded { channel: channel_id.to_string(), reset: flow.period_end })
    } else {
        Ok(QuotaUsage { used: balance, max, period_end: flow.period_end })
    }
}

/// Index of the registry entry for `channel_id`, if one exists.
fn find_channel(channels: &Vec<Channel>, channel_id: &String) -> (r: Option<usize>)
    ensures
        match r {
            Some(i) => i < channels@.len() && channels@[i as int].channel_id@ == channel_id@,
            None => forall|k: int|
                0 <= k < channels@.len() ==> channels@[k].channel_id@ != channel_id@,
        },
{
    let mut i: usize = 0;
    while i < channels.len()
        invariant
            i <= channels@.len(),
            forall|k: int| 0 <= k < i ==> channels@[k].channel_id@ != channel_id@,
        decreases channels@.len() - i,
    {
        if channels[i].channel_id == *channel_id {
            return Some(i);
        }
        i = i + 1;
    }
    None
}

/// The full contract of a transfer check, relating the state before (`pre`)
/// and after (`post`) to the returned value, over the map view of the
/// registry.
pub open spec fn transfer_post(
    pre: ContractState,
    post: ContractState,
    r: Result<TransferResponse, ContractError>,
    sender: Seq<char>,
    channel_id: Seq<char>,
    channel_value: u128,
    funds: u128,
    direction: FlowType,
    now: u64,
) -> bool {
    let m = pre.channel_map();
    &&& sender != pre.ibc_module@ ==> r == Err::<TransferResponse, ContractError>(
        ContractError::Unauthorized {  },
    ) && post == pre
    &&& sender == pre.ibc_module@ && !m.dom().contains(channel_id) ==> (r matches Err(
        ContractError::UnknownChannel { channel },
    ) && channel@ == channel_id && post == pre)
    &&& sender == pre.ibc_module@ && m.dom().contains(channel_id) && m[channel_id].0.len() == 0
        ==> (r matches Ok(TransferResponse::NoQuota) && post == pre)
    &&& sender == pre.ibc_module@ && m.dom().contains(channel_id) && m[channel_id].0.len() > 0
        ==> ({
        let evaluated = spec_eval_quotas(
            m[channel_id].0,
            m[channel_id].1,
            direction,
            channel_value,
            funds,
            now,
        );
        match evaluated.1 {
            Ok(usages) => {
                &&& (r matches Ok(TransferResponse::Applied { usages: v }) && v@ == usages)
                &&& post.channel_map() == m.insert(channel_id, (m[channel_id].0, evaluated.0))
            },
            Err(reset) => {
                &&& (r matches Err(ContractError::RateLimitExceded { channel, reset: t })
                    && channel@ == channel_id && t == reset)
                &&& post == pre
            },
        }
    })
}

/// Checks one attempted transfer against every quota configured for the
/// channel, in configuration order, mutating the channel's shared flow. Only
/// the designated transfer principal may call; a channel without quotas
/// passes unconditionally and untouched; the first violated quota denies the
/// whole transfer and commits nothing.
#[verifier::loop_isolation(false)]
pub fn try_transfer(
    state: &mut ContractState,
    sender: String,
    channel_id: String,
    channel_value: u128,
    funds: u128,
    direction: FlowType,
    now: u64,
) -> (r: Result<TransferResponse, ContractError>)
    requires
        old(state).wf(),
        channel_value <= u128::MAX as int / 100,
        fits_window(now),
    ensures
        final(state).wf(),
        final(state).gov_module == old(state).gov_module,
        final(state).ibc_module == old(state).ibc_module,
        transfer_post(
            *old(state),
            *final(state),
            r,
            sender@,
            channel_id@,
            channel_value,
            funds,
            direction,
            now,
        ),
{
    if !(sender == state.ibc_module) {
        return Err(ContractError::Unauthorized {  });
    }
    proof {
        lemma_channel_map_contains(state.channels@, channel_id@);
    }
    let found = find_channel(&state.channels, &channel_id);
    match found {
        None => Err(ContractError::UnknownChannel { channel: channel_id }),
        Some(i) => {
            proof {
                lemma_channel_map_index(state.channels@, i as int);
            }
            let quota_count = state.channels[i].quotas.len();
            if quota_count == 0 {
                return Ok(TransferResponse::NoQuota);
            }
            let ghost qs = state.channels@[i as int].quotas@;
            let ghost f0 = state.channels@[i as int].flow;
            let mut flow = state.channels[i].flow;
            let mut usages: Vec<QuotaUsage> = Vec::new();
            let mut j: usize = 0;
            proof {
                assert(qs.skip(0) =~= qs);
                let full = spec_eval_quotas(qs, f0, direction, channel_value, funds, now);
                if full.1 is Ok {
                    assert(Seq::<QuotaUsage>::empty() + full.1->Ok_0 =~= full.1->Ok_0);
                }
            }
            while j < quota_count
                invariant
                    j <= qs.len(),
                    *state == *old(state),
                    ({
                        let full = spec_eval_quotas(qs, f0, direction, channel_value, funds, now);
                        let rem = spec_eval_quotas(
                            qs.skip(j as int),
                            flow,
                            direction,
                            channel_value,
                            funds,
                            now,
                        );
                        &&& full.0 == rem.0
                        &&& match rem.1 {
                            Ok(rest) => full.1 == Ok::<Seq<QuotaUsage>, u64>(usages@ + rest),
                            Err(reset) => full.1 == Err::<Seq<QuotaUsage>, u64>(reset),
                        }
                    }),
                decreases qs.len() - j,
            {
                let ghost pre_usages = usages@;
                let ghost pre_flow = flow;
                let outcome = check_quota(
                    &state.channels[i].quotas[j],
                    &mut flow,
                    direction,
                    channel_id.as_str(),
                    channel_value,
                    funds,
                    now,
                );
                proof {
                    assert(qs.skip(j as int)[0] == qs[j as int]);
                    assert(qs.skip(j as int).skip(1) =~= qs.skip(j as int + 1));
                }
                match outcome {
                    Err(denial) => {
                        return Err(denial);
                    },
                    Ok(usage) => {
                        usages.push(usage);
                        proof {
                            let rem = spec_eval_quotas(
                                qs.skip(j as int + 1),
                                flow,
                                direction,
                                channel_value,
                                funds,
                                now,
                            );
                            if rem.1 is Ok {
                                assert(pre_usages + (seq![usage] + rem.1->Ok_0) =~= usages@
                                    + rem.1->Ok_0);
                            }
                        }
                    },
                }
                j = j + 1;
            }
            proof {
                assert(qs.skip(qs.len() as int) =~= Seq::<Quota>::empty());
                assert(usages@ + Seq::<QuotaUsage>::empty() =~= usages@);
            }
            let ghost pre_channels = state.channels@;
            let channel_ref = &mut state.channels[i];
            channel_ref.flow = flow;
            proof {
                let updated = Channel {
                    channel_id: pre_channels[i as int].channel_id,
                    quotas: pre_channels[i as int].quotas,
                    flow,
                };
                assert(state.channels@ =~= pre_channels.update(i as int, updated));
                lemma_channel_map_update(pre_channels, i as int, updated);
            }
            Ok(TransferResponse::Applied { usages })
        },
    }
}

/// The registry contents after registering the given `(channel, quota)`
/// pairs at `now`: one clamped quota and one zeroed flow per channel, a
/// later pair replacing an earlier one for the same channel.
pub open spec fn spec_instantiate_channels(pairs: Seq<(String, QuotaMsg)>, now: u64) -> Map<
    Seq<char>,
    (Seq<Quota>, Flow),
>
    decreases pairs.len(),
{
    if pairs.len() == 0 {
        Map::empty()
    } else {
        spec_instantiate_channels(pairs.drop_last(), now).insert(
            pairs.last().0@,
            (
                seq![Quota::spec_from_msg(pairs.last().1)],
                Flow { inflow: 0, outflow: 0, period_end: spec_week_from(now) },
            ),
        )
    }
}

/// Builds the registry from the registration message: records the two
/// authorized principals and, for every listed channel, its clamped quota
/// and a fresh zeroed flow whose window opens at `now`.
#[verifier::loop_isolation(false)]
pub fn instantiate(msg: InstantiateMsg, now: u64) -> (state: ContractState)
    requires
        fits_window(now),
    ensures
        state.wf(),
        state.gov_module == msg.gov_module,
        state.ibc_module == msg.ibc_module,
        state.channel_map() == spec_instantiate_channels(msg.channel_quotas@, now),
{
    let InstantiateMsg { gov_module, ibc_module, channel_quotas } = msg;
    let mut state = ContractState { gov_module, ibc_module, channels: Vec::new() };
    let mut k: usize = 0;
    proof {
        assert(channel_quotas@.take(0) =~= Seq::<(String, QuotaMsg)>::empty());
    }
    while k < channel_quotas.len()
        invariant
            k <= channel_quotas@.len(),
            state.wf(),
            state.gov_module == msg.gov_module,
            state.ibc_module == msg.ibc_module,
            channel_map_of(state.channels@) == spec_instantiate_channels(
                channel_quotas@.take(k as int),
                now,
            ),
        decreases channel_quotas@.len() - k,
    {
        let pair = &channel_quotas[k];
        let quota = Quota::from(pair.1.clone());
        let mut quota_vec: Vec<Quota> = Vec::new();
        quota_vec.push(quota);
        let flow = Flow::new(0, 0, now);
        let found = find_channel(&state.channels, &pair.0);
        let fresh = Channel { channel_id: pair.0.clone(), quotas: quota_vec, flow };
        proof {
            lemma_quota_percentages_clamped(channel_quotas@[k as int].1);
            assert(channel_quotas@.take(k as int + 1).drop_last() =~= channel_quotas@.take(
                k as int,
            ));
            assert(fresh.quotas@ =~= seq![Quota::spec_from_msg(channel_quotas@[k as int].1)]);
        }
        match found {
            Some(i) => {
                proof {
                    lemma_channel_map_update(state.channels@, i as int, fresh);
                }
                state.channels[i] = fresh;
            },
            None => {
                proof {
                    lemma_channel_map_push(state.channels@, fresh);
                }
                state.channels.push(fresh);
            },
        }
        k = k + 1;
    }
    proof {
        assert(channel_quotas@.take(channel_quotas@.len() as int) =~= channel_quotas@);
    }
    state
}

/// Dispatches one host-driven operation: transfer checks go through
/// [`try_transfer`] with the matching direction; channel addition and
/// removal are declared but unimplemented and fail loudly.
pub fn execute(state: &mut ContractState, sender: String, msg: ExecuteMsg, now: u64) -> (r: Result<
    TransferResponse,
    ContractError,
>)
    requires
        old(state).wf(),
        fits_window(now),
        match msg {
            ExecuteMsg::SendPacket { channel_value, .. } => channel_value <= u128::MAX as int
                / 100,
            ExecuteMsg::RecvPacket { channel_value, .. } => channel_value <= u128::MAX as int
                / 100,
            _ => true,
        },
    ensures
        final(state).wf(),
        final(state).gov_module == old(state).gov_module,
        final(state).ibc_module == old(state).ibc_module,
        msg matches ExecuteMsg::SendPacket { channel_id, channel_value, funds } ==> transfer_post(
            *old(state),
            *final(state),
            r,
            sender@,
            channel_id@,
            channel_value,
            funds,
            FlowType::Out,
            now,
        ),
        msg matches ExecuteMsg::RecvPacket { channel_id, channel_value, funds } ==> transfer_post(
            *old(state),
            *final(state),
            r,
            sender@,
            channel_id@,
            channel_value,
            funds,
            FlowType::In,
            now,
        ),
        msg matches ExecuteMsg::AddChannel {  } ==> r == Err::<TransferResponse, ContractError>(
            ContractError::Unimplemented {  },
        ) && *final(state) == *old(state),
        msg matches ExecuteMsg::RemoveChannel {  } ==> r == Err::<TransferResponse, ContractError>(
            ContractError::Unimplemented {  },
        ) && *final(state) == *old(state),
{
    match msg {
        ExecuteMsg::SendPacket { channel_id, channel_value, funds } => try_transfer(
            state,
            sender,
            channel_id,
            channel_value,
            funds,
            FlowType::Out,
            now,
        ),
        ExecuteMsg::RecvPacket { channel_id, channel_value, funds } => try_transfer(
            state,
            sender,
            channel_id,
            channel_value,
            funds,
            FlowType::In,
            now,
        ),
        ExecuteMsg::AddChannel {  } => Err(ContractError::Unimplemented {  }),
        ExecuteMsg::RemoveChannel {  } => Err(ContractError::Unimplemented {  }),
    }
}

} // verus!

