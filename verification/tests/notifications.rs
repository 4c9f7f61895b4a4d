use cosmos_sdk_proto::cosmos::base::abci::v1beta1::{MsgData, TxMsgData};
use cosmos_sdk_proto::traits::Message;
use interchain_vault::constants::{
    EXECUTE_TYPE_URL, MISSING_PAYLOAD_NOTE, SWAP_TYPE_URL, TRANSFER_TYPE_URL,
};
use interchain_vault::contract::{
    decode_outcome, prepare_sudo_payload, process_response, query, reply, resume, sudo,
    sudo_error, sudo_open_ack, sudo_response, sudo_timeout, RemoteOutcome,
};
use interchain_vault::error::ContractError;
use interchain_vault::msg::{QueryMsg, QueryResponse, Reply, SubMsgResult, SudoMsg};
use interchain_vault::response::Response;
use interchain_vault::state::State;
use interchain_vault::types::{
    AcknowledgementResult, Coin, Env, IbcFee, MinterData, OpenAckVersion, RemoteAccount,
    RequestPacket, Step, SudoPayload,
};
use osmosis_std::types::cosmwasm::wasm::v1::MsgExecuteContractResponse;
use osmosis_std::types::osmosis::gamm::v1beta1::MsgSwapExactAmountInResponse;

const CONTRACT: &str = "neutron1contract";
const HOLDER: &str = "neutron1holder";
const PORT: &str = "icacontroller-neutron1contract.babu_neutron_osmosis_v1";

fn env() -> Env {
    Env { contract_address: CONTRACT.to_string() }
}

fn fee() -> Option<IbcFee> {
    Some(IbcFee {
        recv_fee: vec![],
        ack_fee: vec![Coin { denom: "untrn".to_string(), amount: 1 }],
        timeout_fee: vec![],
    })
}

fn payload(step: Step, amount: Option<u128>) -> SudoPayload {
    SudoPayload {
        port_id: PORT.to_string(),
        message: "message".to_string(),
        sender: HOLDER.to_string(),
        executor: step,
        amount,
    }
}

fn state_with(step: Step, amount: Option<u128>, channel: &str, sequence: u64) -> State {
    let mut state = State::new(Some(MinterData { minter: CONTRACT.to_string(), cap: None }));
    state.confirm(
        PORT.to_string(),
        RemoteAccount { address: "osmo1remote".to_string(), connection_id: "connection-1".to_string() },
    );
    state.stage(payload(step, amount));
    state.promote(channel.to_string(), sequence).unwrap();
    state
}

fn request(channel: &str, sequence: u64) -> RequestPacket {
    RequestPacket { sequence: Some(sequence), source_channel: Some(channel.to_string()) }
}

fn ack(items: Vec<(&str, Vec<u8>)>) -> Vec<u8> {
    TxMsgData {
        data: items
            .into_iter()
            .map(|(tag, data)| MsgData { msg_type: tag.to_string(), data })
            .collect(),
    }
    .encode_to_vec()
}

fn executed() -> Vec<u8> {
    MsgExecuteContractResponse { data: vec![1, 2, 3] }.encode_to_vec()
}

#[test]
fn error_without_payload_is_queued() {
    let mut state = State::new(None);
    let handled = sudo_error(&mut state, &request("channel-1", 9), "out of gas".to_string());
    assert_eq!(handled, Ok(Response::new()));
    assert_eq!(state.errors, vec![MISSING_PAYLOAD_NOTE.to_string()]);
    assert_eq!(state.outcome(&PORT.to_string(), 9), None);
    assert!(state.staged.is_none());
}

#[test]
fn timeout_and_success_without_payload_are_queued() {
    let mut state = State::new(None);
    assert_eq!(sudo_timeout(&mut state, &request("channel-1", 9)), Ok(Response::new()));
    let handled = sudo_response(&mut state, &env(), &request("channel-1", 9), &vec![0xff], &fee());
    assert_eq!(handled, Ok(Response::new()));
    assert_eq!(
        state.errors,
        vec![
            "WASMDEBUG: Error: Unable to read sudo payload".to_string(),
            "WASMDEBUG: Error: Unable to read sudo payload".to_string(),
        ]
    );
}

#[test]
fn success_for_a_resolved_dispatch_is_rejected() {
    let mut state = state_with(Step::IssueShares, None, "channel-1", 4);
    let data = ack(vec![(EXECUTE_TYPE_URL, executed())]);
    let first = sudo_response(&mut state, &env(), &request("channel-1", 4), &data, &fee());
    assert_eq!(first, Ok(Response::new()));
    let recorded = Some(AcknowledgementResult::Success(vec![EXECUTE_TYPE_URL.to_string()]));
    assert_eq!(state.outcome(&PORT.to_string(), 4), recorded);
    let second = sudo_response(&mut state, &env(), &request("channel-1", 4), &data, &fee());
    assert_eq!(second, Err(ContractError::AlreadyResolved));
    assert_eq!(state.outcome(&PORT.to_string(), 4), recorded);
}

#[test]
fn an_outcome_is_recorded_once() {
    let mut state = state_with(Step::Swap, None, "channel-1", 4);
    let timed_out = sudo(&mut state, &env(), SudoMsg::Timeout { request: request("channel-1", 4) }, &None);
    assert_eq!(timed_out, Ok(Response::new()));
    let recorded = Some(AcknowledgementResult::Timeout("message".to_string()));
    assert_eq!(state.outcome(&PORT.to_string(), 4), recorded);
    let failed = sudo_error(&mut state, &request("channel-1", 4), "late".to_string());
    assert_eq!(failed, Err(ContractError::AlreadyResolved));
    assert_eq!(sudo_timeout(&mut state, &request("channel-1", 4)), Err(ContractError::AlreadyResolved));
    assert_eq!(state.outcome(&PORT.to_string(), 4), recorded);
    assert_eq!(
        state.record(PORT.to_string(), 4, AcknowledgementResult::Success(vec![])),
        Err(ContractError::AlreadyResolved)
    );
    assert_eq!(state.outcome(&PORT.to_string(), 4), recorded);
    assert!(state.errors.is_empty());
}

#[test]
fn error_with_payload_records_label_and_details() {
    let mut state = state_with(Step::Deposit, Some(5), "channel-1", 4);
    let handled = sudo(
        &mut state,
        &env(),
        SudoMsg::Error { request: request("channel-1", 4), details: "out of gas".to_string() },
        &None,
    );
    assert_eq!(handled, Ok(Response::new()));
    assert_eq!(
        state.outcome(&PORT.to_string(), 4),
        Some(AcknowledgementResult::Error(("message".to_string(), "out of gas".to_string())))
    );
    assert_eq!(state.ledger.total_supply(), 0);
    let answer = query(
        &state,
        &env(),
        QueryMsg::AcknowledgementResult {
            interchain_account_id: "babu_neutron_osmosis_v1".to_string(),
            sequence_id: 4,
        },
    );
    assert_eq!(
        answer,
        Ok(QueryResponse::Acknowledgement(Some(AcknowledgementResult::Error((
            "message".to_string(),
            "out of gas".to_string()
        )))))
    );
}

#[test]
fn notification_needs_sequence_and_channel() {
    let mut state = state_with(Step::Deposit, Some(5), "channel-1", 4);
    let no_sequence = RequestPacket { sequence: None, source_channel: Some("channel-1".to_string()) };
    let no_channel = RequestPacket { sequence: Some(4), source_channel: None };
    let neither = RequestPacket { sequence: None, source_channel: None };
    assert_eq!(
        sudo_response(&mut state, &env(), &no_sequence, &vec![], &fee()),
        Err(ContractError::SequenceMissing)
    );
    assert_eq!(
        sudo_response(&mut state, &env(), &no_channel, &vec![], &fee()),
        Err(ContractError::ChannelMissing)
    );
    assert_eq!(sudo_error(&mut state, &neither, "x".to_string()), Err(ContractError::SequenceMissing));
    assert_eq!(sudo_error(&mut state, &no_channel, "x".to_string()), Err(ContractError::ChannelMissing));
    assert_eq!(sudo_timeout(&mut state, &no_sequence), Err(ContractError::SequenceMissing));
    assert_eq!(sudo_timeout(&mut state, &no_channel), Err(ContractError::ChannelMissing));
    assert!(state.errors.is_empty());
    assert_eq!(state.outcome(&PORT.to_string(), 4), None);
}

#[test]
fn undecodable_result_is_fatal() {
    let mut state = state_with(Step::Deposit, Some(5), "channel-1", 4);
    let handled = sudo_response(&mut state, &env(), &request("channel-1", 4), &vec![0xff, 0xff], &fee());
    assert_eq!(handled, Err(ContractError::MalformedAcknowledgement));
    let bad_item = ack(vec![(EXECUTE_TYPE_URL, vec![0xff, 0xff])]);
    let handled = sudo_response(&mut state, &env(), &request("channel-1", 4), &bad_item, &fee());
    assert_eq!(handled, Err(ContractError::MalformedMessage));
    assert_eq!(state.outcome(&PORT.to_string(), 4), None);
    assert_eq!(state.ledger.total_supply(), 0);
}

#[test]
fn unknown_type_and_unsupported_pairs_are_fatal() {
    let unknown = "/cosmos.bank.v1beta1.MsgSend".to_string();
    assert_eq!(decode_outcome(&unknown, &vec![], Step::Deposit), Err(ContractError::UnknownMessageType));
    let execute = EXECUTE_TYPE_URL.to_string();
    let transfer = TRANSFER_TYPE_URL.to_string();
    let swap = SWAP_TYPE_URL.to_string();
    assert_eq!(
        decode_outcome(&execute, &executed(), Step::TransferOut),
        Err(ContractError::UnsupportedCombination)
    );
    assert_eq!(
        decode_outcome(&execute, &vec![0xff], Step::Swap),
        Err(ContractError::UnsupportedCombination)
    );
    assert_eq!(
        decode_outcome(&transfer, &vec![], Step::TransferBack),
        Err(ContractError::UnsupportedCombination)
    );
    assert_eq!(decode_outcome(&transfer, &vec![], Step::TransferOut), Ok(RemoteOutcome::Transferred));
    assert_eq!(decode_outcome(&transfer, &vec![0xff], Step::TransferOut), Err(ContractError::MalformedMessage));
    assert_eq!(
        decode_outcome(&execute, &executed(), Step::Withdraw),
        Ok(RemoteOutcome::Executed { data: vec![1, 2, 3] })
    );
    let swapped = MsgSwapExactAmountInResponse { token_out_amount: "12".to_string() }.encode_to_vec();
    assert_eq!(
        decode_outcome(&swap, &swapped, Step::Withdraw),
        Ok(RemoteOutcome::Swapped { token_out_amount: "12".to_string() })
    );
    assert_eq!(decode_outcome(&swap, &vec![0xff], Step::Swap), Err(ContractError::MalformedMessage));

    let mut state = state_with(Step::Swap, None, "channel-1", 4);
    assert_eq!(
        resume(&mut state, &env(), &payload(Step::Swap, None), &RemoteOutcome::Transferred, &fee()),
        Err(ContractError::UnsupportedCombination)
    );
    assert_eq!(
        resume(
            &mut state,
            &env(),
            &payload(Step::TransferOut, None),
            &RemoteOutcome::Executed { data: vec![] },
            &fee()
        ),
        Err(ContractError::UnsupportedCombination)
    );
}

#[test]
fn resuming_reports_the_step_that_failed() {
    let mut state = state_with(Step::Swap, None, "channel-1", 4);
    let swapped = |text: &str| RemoteOutcome::Swapped { token_out_amount: text.to_string() };
    let done = RemoteOutcome::Executed { data: vec![] };
    assert_eq!(
        resume(&mut state, &env(), &payload(Step::Swap, None), &swapped("12a"), &fee()),
        Err(ContractError::MalformedAmount)
    );
    assert_eq!(
        resume(&mut state, &env(), &payload(Step::Swap, None), &swapped(""), &fee()),
        Err(ContractError::MalformedAmount)
    );
    assert_eq!(
        resume(&mut state, &env(), &payload(Step::Swap, None), &swapped("12"), &None),
        Err(ContractError::DeployFailed)
    );
    assert_eq!(
        resume(&mut state, &env(), &payload(Step::Deposit, None), &done, &fee()),
        Err(ContractError::IssueFailed)
    );
    assert_eq!(
        resume(&mut state, &env(), &payload(Step::Withdraw, None), &done, &fee()),
        Err(ContractError::AmountMissing)
    );
    assert_eq!(
        resume(&mut state, &env(), &payload(Step::TransferBack, None), &done, &fee()),
        Err(ContractError::AmountMissing)
    );
    assert_eq!(
        resume(&mut state, &env(), &payload(Step::Withdraw, Some(3)), &done, &None),
        Err(ContractError::ReturnFundsFailed)
    );
    assert_eq!(
        resume(&mut state, &env(), &payload(Step::TransferBack, Some(3)), &done, &fee()),
        Err(ContractError::ReleaseFailed)
    );
    assert_eq!(
        resume(&mut state, &env(), &payload(Step::TransferOut, None), &RemoteOutcome::Transferred, &fee()),
        Err(ContractError::SwapFailed)
    );
    let mut unminted = State::new(None);
    assert_eq!(
        resume(&mut unminted, &env(), &payload(Step::Deposit, Some(3)), &done, &fee()),
        Err(ContractError::IssueFailed)
    );
    assert_eq!(unminted.ledger.total_pool_value(), 0);
    assert_eq!(
        resume(&mut state, &env(), &payload(Step::IssueShares, None), &done, &fee()),
        Ok(Response::new())
    );
    assert!(state.staged.is_none());
}

#[test]
fn a_swap_result_in_plus_notation_is_an_amount() {
    let mut state = state_with(Step::Swap, None, "channel-1", 4);
    let outcome = RemoteOutcome::Swapped { token_out_amount: "+0950".to_string() };
    let resumed = resume(&mut state, &env(), &payload(Step::Swap, None), &outcome, &fee());
    assert!(resumed.is_ok());
    assert_eq!(state.staged.as_ref().unwrap().amount, Some(950));
    let too_large = RemoteOutcome::Swapped {
        token_out_amount: "340282366920938463463374607431768211456".to_string(),
    };
    assert_eq!(
        resume(&mut state, &env(), &payload(Step::Swap, None), &too_large, &fee()),
        Err(ContractError::MalformedAmount)
    );
    let largest = RemoteOutcome::Swapped {
        token_out_amount: "340282366920938463463374607431768211455".to_string(),
    };
    assert!(resume(&mut state, &env(), &payload(Step::Swap, None), &largest, &fee()).is_ok());
    assert_eq!(state.staged.as_ref().unwrap().amount, Some(u128::MAX));
}

#[test]
fn a_later_failure_undoes_the_earlier_messages() {
    let mut state = state_with(Step::Deposit, Some(40), "channel-1", 4);
    let items = vec![
        (EXECUTE_TYPE_URL.to_string(), executed()),
        (EXECUTE_TYPE_URL.to_string(), executed()),
        ("/unknown".to_string(), vec![]),
    ];
    let handled =
        process_response(&mut state, &env(), &payload(Step::Deposit, Some(40)), 4, &items, &fee());
    assert_eq!(handled, Err(ContractError::UnknownMessageType));
    assert_eq!(state.ledger.total_supply(), 0);
    assert_eq!(state.ledger.total_pool_value(), 0);
    assert_eq!(state.ledger.balance(&HOLDER.to_string()), None);
    assert_eq!(state.outcome(&PORT.to_string(), 4), None);

    let both = ack(vec![(EXECUTE_TYPE_URL, executed()), (EXECUTE_TYPE_URL, executed())]);
    let handled = sudo_response(&mut state, &env(), &request("channel-1", 4), &both, &fee());
    assert_eq!(handled, Ok(Response::new()));
    assert_eq!(state.ledger.total_pool_value(), 80);
    assert_eq!(state.ledger.total_supply(), 80);
    assert_eq!(state.ledger.balance(&HOLDER.to_string()), Some(80));
    assert_eq!(
        state.outcome(&PORT.to_string(), 4),
        Some(AcknowledgementResult::Success(vec![
            EXECUTE_TYPE_URL.to_string(),
            EXECUTE_TYPE_URL.to_string()
        ]))
    );
}

#[test]
fn a_conflict_after_the_steps_undoes_them() {
    let mut state = state_with(Step::Deposit, Some(40), "channel-1", 4);
    state.record(PORT.to_string(), 4, AcknowledgementResult::Timeout("message".to_string())).unwrap();
    let data = ack(vec![(EXECUTE_TYPE_URL, executed())]);
    let handled = sudo_response(&mut state, &env(), &request("channel-1", 4), &data, &fee());
    assert_eq!(handled, Err(ContractError::AlreadyResolved));
    assert_eq!(state.ledger.total_supply(), 0);
    assert_eq!(state.ledger.total_pool_value(), 0);
    assert_eq!(state.ledger.balance(&HOLDER.to_string()), None);
}

#[test]
fn confirmation_of_a_remote_account_is_recorded() {
    let mut state = State::new(None);
    let version = OpenAckVersion {
        version: "ics27-1".to_string(),
        controller_connection_id: "connection-1".to_string(),
        host_connection_id: "connection-9".to_string(),
        address: "osmo1remote".to_string(),
        encoding: "proto3".to_string(),
        tx_type: "sdk_multi_msg".to_string(),
    };
    assert_eq!(
        sudo_open_ack(&mut state, PORT.to_string(), None),
        Err(ContractError::MalformedConfirmation)
    );
    assert_eq!(state.resolve(&PORT.to_string()), Err(ContractError::AccountNotFound));
    let handled = sudo(
        &mut state,
        &env(),
        SudoMsg::OpenAck {
            port_id: PORT.to_string(),
            channel_id: "channel-1".to_string(),
            counterparty_channel_id: "channel-2".to_string(),
            counterparty_version: Some(version),
        },
        &None,
    );
    assert_eq!(handled, Ok(Response::new()));
    assert_eq!(
        state.resolve(&PORT.to_string()),
        Ok(RemoteAccount {
            address: "osmo1remote".to_string(),
            connection_id: "connection-1".to_string()
        })
    );
    assert_eq!(sudo(&mut state, &env(), SudoMsg::Other, &None), Ok(Response::new()));
}

#[test]
fn dispatch_confirmation_promotes_the_staged_payload() {
    let mut state = State::new(None);
    let good = |id: u64| Reply {
        id,
        result: SubMsgResult::Success {
            data: Some(b"{\"sequence_id\":17,\"channel\":\"channel-5\"}".to_vec()),
        },
    };
    assert_eq!(reply(&mut state, &good(1)), Err(ContractError::NothingStaged));
    state.stage(payload(Step::Swap, None));
    assert_eq!(reply(&mut state, &good(2)), Err(ContractError::UnsupportedReplyId));
    assert_eq!(
        reply(&mut state, &Reply { id: 1, result: SubMsgResult::Failure("boom".to_string()) }),
        Err(ContractError::DispatchFailed)
    );
    assert_eq!(
        reply(&mut state, &Reply { id: 1, result: SubMsgResult::Success { data: None } }),
        Err(ContractError::NoResult)
    );
    assert_eq!(
        prepare_sudo_payload(
            &mut state,
            &Reply { id: 1, result: SubMsgResult::Success { data: Some(b"{}".to_vec()) } }
        ),
        Err(ContractError::MalformedTicket)
    );
    assert!(state.staged.is_some());
    assert_eq!(reply(&mut state, &good(1)), Ok(Response::new()));
    assert!(state.staged.is_none());
    assert_eq!(state.consume(&"channel-5".to_string(), 17), Some(payload(Step::Swap, None)));
    assert_eq!(state.consume(&"channel-5".to_string(), 18), None);
    assert_eq!(state.consume(&"channel-17".to_string(), 5), None);
}
