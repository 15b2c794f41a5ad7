use rate_limiter::contract::{
    execute, instantiate, try_transfer, Channel, ContractState, TransferResponse,
};
use rate_limiter::error::ContractError;
use rate_limiter::msg::{ExecuteMsg, InstantiateMsg, QuotaMsg};
use rate_limiter::state::{Flow, FlowType, Quota, NANOS_PER_SECOND, RESET_TIME_WEEKLY};

const IBC_ADDR: &str = "IBC_MODULE";
const GOV_ADDR: &str = "GOV_MODULE";
const NOW: u64 = 1_571_797_419_879_305_533;

fn used_of(response: &TransferResponse) -> u128 {
    match response {
        TransferResponse::Applied { usages } => usages[0].used,
        TransferResponse::NoQuota => panic!("expected an applied quota"),
    }
}

fn send_msg(funds: u128) -> ExecuteMsg {
    ExecuteMsg::SendPacket {
        channel_id: "channel".to_string(),
        channel_value: 3_000,
        funds,
    }
}

fn recv_msg(funds: u128) -> ExecuteMsg {
    ExecuteMsg::RecvPacket {
        channel_id: "channel".to_string(),
        channel_value: 3_000,
        funds,
    }
}

fn setup(send_percentage: u32, recv_percentage: u32) -> ContractState {
    let quota = QuotaMsg::new("Weekly", RESET_TIME_WEEKLY, send_percentage, recv_percentage);
    let msg = InstantiateMsg {
        gov_module: GOV_ADDR.to_string(),
        ibc_module: IBC_ADDR.to_string(),
        channel_quotas: vec![("channel".to_string(), quota)],
    };
    instantiate(msg, NOW)
}

#[test]
fn proper_instantiation() {
    let msg = InstantiateMsg {
        gov_module: GOV_ADDR.to_string(),
        ibc_module: IBC_ADDR.to_string(),
        channel_quotas: vec![],
    };
    let state = instantiate(msg, NOW);
    assert_eq!(0, state.channels.len());
    assert_eq!(state.gov_module, GOV_ADDR);
    assert_eq!(state.ibc_module, IBC_ADDR);
}

#[test]
fn permissions() {
    let mut state = setup(10, 10);

    // This succeeds
    execute(&mut state, IBC_ADDR.to_string(), send_msg(300), NOW).unwrap();

    let err = execute(&mut state, "SomeoneElse".to_string(), send_msg(300), NOW).unwrap_err();
    assert!(matches!(err, ContractError::Unauthorized { .. }));
}

#[test]
fn consume_allowance() {
    let mut state = setup(10, 10);

    let res = execute(&mut state, IBC_ADDR.to_string(), send_msg(300), NOW).unwrap();
    assert_eq!(used_of(&res), 300);

    let err = execute(&mut state, IBC_ADDR.to_string(), send_msg(300), NOW).unwrap_err();
    assert!(matches!(err, ContractError::RateLimitExceded { .. }));
}

#[test]
fn symetric_flows_dont_consume_allowance() {
    let mut state = setup(10, 10);

    let res = execute(&mut state, IBC_ADDR.to_string(), send_msg(300), NOW).unwrap();
    assert_eq!(used_of(&res), 300);

    let res = execute(&mut state, IBC_ADDR.to_string(), recv_msg(300), NOW).unwrap();
    assert_eq!(used_of(&res), 0);

    // We can still use the channel. Even if we have sent more than the
    // allowance through the channel (900 > 3000*.1), the current "balance"
    // of inflow vs outflow is still lower than the channel's capacity/quota
    let res = execute(&mut state, IBC_ADDR.to_string(), recv_msg(300), NOW).unwrap();
    assert_eq!(used_of(&res), 300);

    let err = execute(&mut state, IBC_ADDR.to_string(), recv_msg(300), NOW).unwrap_err();
    assert!(matches!(err, ContractError::RateLimitExceded { .. }));
}

#[test]
fn asymetric_quotas() {
    let mut state = setup(10, 1);

    // Sending 2%
    let res = execute(&mut state, IBC_ADDR.to_string(), send_msg(60), NOW).unwrap();
    assert_eq!(used_of(&res), 60);

    // Sending 1% more. Allowed, as sending has a 10% allowance
    let res = execute(&mut state, IBC_ADDR.to_string(), send_msg(30), NOW).unwrap();
    assert_eq!(used_of(&res), 90);

    // Receiving 1% should fail. 3% already executed through the channel
    let err = execute(&mut state, IBC_ADDR.to_string(), recv_msg(30), NOW).unwrap_err();
    assert!(matches!(err, ContractError::RateLimitExceded { .. }));
}

#[test]
fn denial_reports_reset_time_and_commits_nothing() {
    let mut state = setup(10, 10);
    execute(&mut state, IBC_ADDR.to_string(), send_msg(300), NOW).unwrap();
    let before = state.get_flow(&"channel".to_string()).unwrap();

    let err = execute(&mut state, IBC_ADDR.to_string(), send_msg(1), NOW).unwrap_err();
    match err {
        ContractError::RateLimitExceded { channel, reset } => {
            assert_eq!(channel, "channel");
            assert_eq!(reset, NOW + RESET_TIME_WEEKLY * NANOS_PER_SECOND);
        }
        other => panic!("unexpected error {:?}", other),
    }

    // the denied invocation must not have mutated the stored flow
    let after = state.get_flow(&"channel".to_string()).unwrap();
    assert_eq!(before, after);
    assert_eq!(after.outflow, 300);
    assert_eq!(after.inflow, 0);
}

#[test]
fn unauthorized_leaves_flow_unchanged() {
    let mut state = setup(10, 10);
    let before = state.get_flow(&"channel".to_string()).unwrap();
    let err = execute(&mut state, GOV_ADDR.to_string(), send_msg(300), NOW).unwrap_err();
    assert!(matches!(err, ContractError::Unauthorized { .. }));
    assert_eq!(before, state.get_flow(&"channel".to_string()).unwrap());
}

#[test]
fn unknown_channel_is_rejected() {
    let mut state = setup(10, 10);
    let msg = ExecuteMsg::SendPacket {
        channel_id: "other".to_string(),
        channel_value: 3_000,
        funds: 10,
    };
    let err = execute(&mut state, IBC_ADDR.to_string(), msg, NOW).unwrap_err();
    match err {
        ContractError::UnknownChannel { channel } => assert_eq!(channel, "other"),
        other => panic!("unexpected error {:?}", other),
    }
}

#[test]
fn add_and_remove_channel_are_unimplemented() {
    let mut state = setup(10, 10);
    let err = execute(&mut state, IBC_ADDR.to_string(), ExecuteMsg::AddChannel {}, NOW).unwrap_err();
    assert!(matches!(err, ContractError::Unimplemented { .. }));
    let err =
        execute(&mut state, IBC_ADDR.to_string(), ExecuteMsg::RemoveChannel {}, NOW).unwrap_err();
    assert!(matches!(err, ContractError::Unimplemented { .. }));
}

#[test]
fn unconfigured_channel_allows_everything() {
    let mut state = ContractState {
        gov_module: GOV_ADDR.to_string(),
        ibc_module: IBC_ADDR.to_string(),
        channels: vec![Channel {
            channel_id: "channel".to_string(),
            quotas: vec![],
            flow: Flow::new(0, 0, NOW),
        }],
    };
    let res = execute(&mut state, IBC_ADDR.to_string(), send_msg(u128::MAX / 200), NOW).unwrap();
    assert!(matches!(res, TransferResponse::NoQuota));
    // the flow is never touched on an unconfigured channel
    let flow = state.get_flow(&"channel".to_string()).unwrap();
    assert_eq!(flow.outflow, 0);
    assert_eq!(flow.inflow, 0);
}

#[test]
fn window_reset_starts_accumulators_at_zero() {
    let mut state = setup(10, 10);
    let res = execute(&mut state, IBC_ADDR.to_string(), send_msg(300), NOW).unwrap();
    assert_eq!(used_of(&res), 300);

    // strictly after the window end the next check starts from zero
    let later = NOW + RESET_TIME_WEEKLY * NANOS_PER_SECOND + 1;
    let res = execute(&mut state, IBC_ADDR.to_string(), send_msg(300), later).unwrap();
    assert_eq!(used_of(&res), 300);
    let flow = state.get_flow(&"channel".to_string()).unwrap();
    assert_eq!(flow.outflow, 300);
    assert_eq!(flow.period_end, later + RESET_TIME_WEEKLY * NANOS_PER_SECOND);
}

#[test]
fn every_quota_of_a_channel_shares_one_flow() {
    // two quotas on one channel observe the same accumulator, and the
    // attempted amount is accumulated once per quota
    let mut state = ContractState {
        gov_module: GOV_ADDR.to_string(),
        ibc_module: IBC_ADDR.to_string(),
        channels: vec![Channel {
            channel_id: "channel".to_string(),
            quotas: vec![
                Quota::from(QuotaMsg::new("first", RESET_TIME_WEEKLY, 10, 10)),
                Quota::from(QuotaMsg::new("second", RESET_TIME_WEEKLY, 10, 10)),
            ],
            flow: Flow::new(0, 0, NOW),
        }],
    };
    let res = execute(&mut state, IBC_ADDR.to_string(), send_msg(100), NOW).unwrap();
    match res {
        TransferResponse::Applied { usages } => {
            assert_eq!(usages.len(), 2);
            assert_eq!(usages[0].used, 100);
            assert_eq!(usages[0].max, 300);
            assert_eq!(usages[1].used, 200);
            assert_eq!(usages[1].max, 300);
        }
        other => panic!("unexpected response {:?}", other),
    }
}

#[test]
fn later_registration_replaces_earlier_one() {
    let msg = InstantiateMsg {
        gov_module: GOV_ADDR.to_string(),
        ibc_module: IBC_ADDR.to_string(),
        channel_quotas: vec![
            (
                "channel".to_string(),
                QuotaMsg::new("Loose", RESET_TIME_WEEKLY, 10, 10),
            ),
            (
                "channel".to_string(),
                QuotaMsg::new("Tight", RESET_TIME_WEEKLY, 1, 1),
            ),
        ],
    };
    let mut state = instantiate(msg, NOW);
    assert_eq!(state.channels.len(), 1);
    // capacity is 3000 * 1 / 100 = 30, so 31 is denied
    let err = execute(&mut state, IBC_ADDR.to_string(), send_msg(31), NOW).unwrap_err();
    assert!(matches!(err, ContractError::RateLimitExceded { .. }));
}

#[test]
fn try_transfer_reports_per_quota_usage() {
    let mut state = setup(10, 10);
    let res = try_transfer(
        &mut state,
        IBC_ADDR.to_string(),
        "channel".to_string(),
        3_000,
        60,
        FlowType::In,
        NOW,
    )
    .unwrap();
    match res {
        TransferResponse::Applied { usages } => {
            assert_eq!(usages.len(), 1);
            assert_eq!(usages[0].used, 60);
            assert_eq!(usages[0].max, 300);
            assert_eq!(usages[0].period_end, NOW + RESET_TIME_WEEKLY * NANOS_PER_SECOND);
        }
        other => panic!("unexpected response {:?}", other),
    }
}

#[test]
fn get_flow_reads_without_side_effects() {
    let state = setup(10, 10);
    let flow = state.get_flow(&"channel".to_string()).unwrap();
    assert_eq!(flow.inflow, 0);
    assert_eq!(flow.outflow, 0);
    assert_eq!(flow.period_end, NOW + RESET_TIME_WEEKLY * NANOS_PER_SECOND);
    assert!(state.get_flow(&"elsewhere".to_string()).is_none());
}
