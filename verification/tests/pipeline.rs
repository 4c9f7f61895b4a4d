use cosmos_sdk_proto::cosmos::base::abci::v1beta1::{MsgData, TxMsgData};
use cosmos_sdk_proto::traits::Message;
use interchain_vault::constants::{
    DEFAULT_TIMEOUT_SECONDS, EXECUTE_TYPE_URL, OSMOSIS_IC_ACCOUNT_ID, SUDO_PAYLOAD_REPLY_ID,
    SWAP_TYPE_URL, TRANSFER_TYPE_URL,
};
use interchain_vault::contract::{
    execute, execute_claim, execute_deploy, execute_fund, execute_ic_swap, execute_return_funds,
    get_ica, reply, sudo, sudo_open_ack,
};
use interchain_vault::error::ContractError;
use interchain_vault::msg::{ExecuteMsg, Reply, SubMsgResult, SudoMsg};
use interchain_vault::response::{Msg, Response};
use interchain_vault::state::State;
use interchain_vault::types::{
    AcknowledgementResult, Coin, Env, IbcFee, MessageInfo, MinterData, OpenAckVersion,
    RequestPacket, Step,
};
use osmosis_std::types::cosmwasm::wasm::v1::{MsgExecuteContract, MsgExecuteContractResponse};
use osmosis_std::types::osmosis::cosmwasmpool::v1beta1::SwapExactAmountIn;
use osmosis_std::types::osmosis::gamm::v1beta1::MsgSwapExactAmountInResponse;

const CONTRACT: &str = "neutron1contract";
const DEPOSITOR: &str = "neutron1depositor";
const ICA: &str = "osmo1remote";
const PORT: &str = "icacontroller-neutron1contract.babu_neutron_osmosis_v1";

fn env() -> Env {
    Env { contract_address: CONTRACT.to_string() }
}

fn coin(denom: &str, amount: u128) -> Coin {
    Coin { denom: denom.to_string(), amount }
}

fn fee() -> Option<IbcFee> {
    Some(IbcFee {
        recv_fee: vec![],
        ack_fee: vec![coin("untrn", 1000), coin("uatom", 5)],
        timeout_fee: vec![coin("uatom", 7), coin("untrn", 2000)],
    })
}

fn version(address: &str, connection: &str) -> OpenAckVersion {
    OpenAckVersion {
        version: "ics27-1".to_string(),
        controller_connection_id: connection.to_string(),
        host_connection_id: "connection-9".to_string(),
        address: address.to_string(),
        encoding: "proto3".to_string(),
        tx_type: "sdk_multi_msg".to_string(),
    }
}

fn ready_state() -> State {
    let mut state = State::new(Some(MinterData { minter: CONTRACT.to_string(), cap: None }));
    let registered = execute(
        &mut state,
        &env(),
        &MessageInfo { sender: DEPOSITOR.to_string(), funds: vec![] },
        ExecuteMsg::Register {
            connection_id: "connection-1".to_string(),
            interchain_account_id: OSMOSIS_IC_ACCOUNT_ID.to_string(),
        },
        &None,
    );
    assert!(registered.is_ok());
    let confirmed = sudo_open_ack(&mut state, PORT.to_string(), Some(version(ICA, "connection-1")));
    assert_eq!(confirmed, Ok(Response::new()));
    state
}

fn confirm(state: &mut State, channel: &str, sequence: u64) {
    let data = format!("{{\"sequence_id\":{},\"channel\":\"{}\"}}", sequence, channel);
    let confirmed = reply(
        state,
        &Reply {
            id: SUDO_PAYLOAD_REPLY_ID,
            result: SubMsgResult::Success { data: Some(data.into_bytes()) },
        },
    );
    assert_eq!(confirmed, Ok(Response::new()));
}

fn ack(tag: &str, data: Vec<u8>) -> Vec<u8> {
    TxMsgData { data: vec![MsgData { msg_type: tag.to_string(), data }] }.encode_to_vec()
}

fn success(state: &mut State, channel: &str, sequence: u64, data: Vec<u8>) -> Result<Response, ContractError> {
    sudo(
        state,
        &env(),
        SudoMsg::Response {
            request: RequestPacket {
                sequence: Some(sequence),
                source_channel: Some(channel.to_string()),
            },
            data,
        },
        &fee(),
    )
}

fn submitted(response: &Response) -> (String, Vec<u8>, u64, IbcFee) {
    assert_eq!(response.messages.len(), 1);
    let sub = &response.messages[0];
    assert_eq!(sub.id, SUDO_PAYLOAD_REPLY_ID);
    assert!(sub.reply_on_success);
    match &sub.msg {
        Msg::SubmitTx { connection_id, interchain_account_id, msgs, memo, timeout, fee } => {
            assert_eq!(connection_id, "connection-1");
            assert_eq!(interchain_account_id, OSMOSIS_IC_ACCOUNT_ID);
            assert_eq!(memo, "");
            assert_eq!(msgs.len(), 1);
            (
                msgs[0].type_url.clone(),
                msgs[0].value.clone(),
                *timeout,
                IbcFee {
                    recv_fee: fee.recv_fee.iter().map(|c| coin(&c.denom, c.amount)).collect(),
                    ack_fee: fee.ack_fee.iter().map(|c| coin(&c.denom, c.amount)).collect(),
                    timeout_fee: fee.timeout_fee.iter().map(|c| coin(&c.denom, c.amount)).collect(),
                },
            )
        },
        other => panic!("unexpected message {:?}", other),
    }
}

#[test]
fn deposit_scenario_issues_shares_to_the_depositor() {
    let mut state = ready_state();
    let info = MessageInfo { sender: DEPOSITOR.to_string(), funds: vec![coin("untrn", 1000)] };

    let funded = execute(&mut state, &env(), &info, ExecuteMsg::Fund {}, &fee()).unwrap();
    let (tag, _, _, _) = submitted(&funded);
    assert_eq!(tag, TRANSFER_TYPE_URL);
    let staged = state.staged.as_ref().unwrap();
    assert_eq!(staged.executor, Step::TransferOut);
    assert_eq!(staged.sender, DEPOSITOR);
    assert_eq!(staged.amount, Some(1000));
    confirm(&mut state, "channel-7", 1);
    assert!(state.staged.is_none());

    let swapping = success(&mut state, "channel-7", 1, ack(TRANSFER_TYPE_URL, vec![])).unwrap();
    let (tag, bytes, timeout, _) = submitted(&swapping);
    assert_eq!(tag, SWAP_TYPE_URL);
    assert_eq!(timeout, DEFAULT_TIMEOUT_SECONDS);
    let swap = SwapExactAmountIn::decode(bytes.as_slice()).unwrap();
    assert_eq!(swap.sender, ICA);
    assert_eq!(swap.token_in.unwrap().amount, "1000");
    assert_eq!(swap.token_out_denom, "uusdc");
    assert_eq!(swap.token_out_min_amount, "950");
    assert_eq!(swap.swap_fee, "10");
    assert_eq!(state.staged.as_ref().unwrap().executor, Step::Swap);
    confirm(&mut state, "channel-7", 2);

    let swapped = MsgSwapExactAmountInResponse { token_out_amount: "950".to_string() };
    let depositing =
        success(&mut state, "channel-7", 2, ack(SWAP_TYPE_URL, swapped.encode_to_vec())).unwrap();
    let (tag, bytes, _, _) = submitted(&depositing);
    assert_eq!(tag, EXECUTE_TYPE_URL);
    let call = MsgExecuteContract::decode(bytes.as_slice()).unwrap();
    assert_eq!(call.sender, ICA);
    assert_eq!(call.msg, b"{\"deposit\":{}}".to_vec());
    assert_eq!(call.funds.len(), 1);
    assert_eq!(call.funds[0].denom, "uusdc");
    assert_eq!(call.funds[0].amount, "950");
    let staged = state.staged.as_ref().unwrap();
    assert_eq!(staged.executor, Step::Deposit);
    assert_eq!(staged.sender, DEPOSITOR);
    assert_eq!(staged.amount, Some(950));
    confirm(&mut state, "channel-7", 3);

    let deposited = MsgExecuteContractResponse { data: vec![] };
    let issued =
        success(&mut state, "channel-7", 3, ack(EXECUTE_TYPE_URL, deposited.encode_to_vec()));
    assert_eq!(issued, Ok(Response::new()));
    assert_eq!(state.ledger.total_supply(), 950);
    assert_eq!(state.ledger.total_pool_value(), 950);
    assert_eq!(state.ledger.balance(&DEPOSITOR.to_string()), Some(950));
    assert_eq!(
        state.outcome(&PORT.to_string(), 3),
        Some(AcknowledgementResult::Success(vec![EXECUTE_TYPE_URL.to_string()]))
    );
}

fn funded_state() -> State {
    let mut state = ready_state();
    let minted = interchain_vault::contract::execute_tokens_to_user(
        &mut state,
        &env(),
        DEPOSITOR.to_string(),
        950,
    );
    assert_eq!(minted, Ok(Response::new()));
    state
}

#[test]
fn redemption_scenario_debits_the_holder_and_pays_out() {
    let mut state = funded_state();
    assert_eq!(state.ledger.balance(&DEPOSITOR.to_string()), Some(950));
    assert_eq!(state.ledger.total_supply(), 950);
    assert_eq!(state.ledger.total_pool_value(), 950);
    let info = MessageInfo { sender: DEPOSITOR.to_string(), funds: vec![] };

    let claimed = execute_claim(&mut state, &env(), &info, 100, &fee()).unwrap();
    let (tag, bytes, _, _) = submitted(&claimed);
    assert_eq!(tag, EXECUTE_TYPE_URL);
    let call = MsgExecuteContract::decode(bytes.as_slice()).unwrap();
    assert_eq!(call.msg, b"{\"withdraw\":{}}".to_vec());
    assert_eq!(call.funds[0].amount, "100");
    assert_eq!(call.funds[0].denom, "uusdc");
    assert_eq!(state.ledger.balance(&DEPOSITOR.to_string()), Some(950));
    assert_eq!(state.staged.as_ref().unwrap().executor, Step::Withdraw);
    assert_eq!(state.staged.as_ref().unwrap().amount, Some(100));
    confirm(&mut state, "channel-7", 11);

    let withdrawn = MsgExecuteContractResponse { data: vec![] };
    let returning =
        success(&mut state, "channel-7", 11, ack(EXECUTE_TYPE_URL, withdrawn.encode_to_vec()))
            .unwrap();
    let (tag, bytes, _, _) = submitted(&returning);
    assert_eq!(tag, TRANSFER_TYPE_URL);
    let transfer =
        cosmos_sdk_proto::ibc::applications::transfer::v1::MsgTransfer::decode(bytes.as_slice())
            .unwrap();
    assert_eq!(transfer.sender, ICA);
    assert_eq!(transfer.receiver, CONTRACT);
    assert_eq!(transfer.source_channel, "channel-3515");
    assert_eq!(transfer.token.unwrap().amount, "100");
    assert_eq!(state.staged.as_ref().unwrap().executor, Step::TransferBack);
    assert_eq!(state.ledger.balance(&DEPOSITOR.to_string()), Some(950));
    confirm(&mut state, "channel-7", 12);

    let back = MsgExecuteContractResponse { data: vec![] };
    let released =
        success(&mut state, "channel-7", 12, ack(EXECUTE_TYPE_URL, back.encode_to_vec())).unwrap();
    assert_eq!(state.ledger.balance(&DEPOSITOR.to_string()), Some(850));
    assert_eq!(released.messages.len(), 1);
    assert!(!released.messages[0].reply_on_success);
    assert_eq!(
        released.messages[0].msg,
        Msg::BankSend { to_address: DEPOSITOR.to_string(), amount: vec![coin("uusdc", 100)] }
    );
}

#[test]
fn fund_without_funds_is_rejected() {
    let mut state = ready_state();
    let info = MessageInfo { sender: DEPOSITOR.to_string(), funds: vec![] };
    assert_eq!(execute_fund(&mut state, &env(), &info, &fee()), Err(ContractError::NoFunds));
    assert_eq!(
        execute_ic_swap(&mut state, &env(), &info, None, &fee()),
        Err(ContractError::NoFunds)
    );
    assert!(state.staged.is_none());
}

#[test]
fn dispatch_needs_the_minimum_fee() {
    let mut state = ready_state();
    let info = MessageInfo { sender: DEPOSITOR.to_string(), funds: vec![coin("untrn", 5)] };
    assert_eq!(execute_fund(&mut state, &env(), &info, &None), Err(ContractError::FeeUnavailable));
    assert_eq!(
        execute_deploy(&mut state, &env(), DEPOSITOR.to_string(), 5, &None),
        Err(ContractError::FeeUnavailable)
    );
    assert!(state.staged.is_none());
}

#[test]
fn dispatch_needs_a_confirmed_remote_account() {
    let mut state = State::new(None);
    let info = MessageInfo { sender: DEPOSITOR.to_string(), funds: vec![coin("untrn", 5)] };
    assert_eq!(
        execute_fund(&mut state, &env(), &info, &fee()),
        Err(ContractError::AccountNotFound)
    );
    assert_eq!(get_ica(&state, &env(), OSMOSIS_IC_ACCOUNT_ID), Err(ContractError::AccountNotFound));
    let registered = execute(
        &mut state,
        &env(),
        &info,
        ExecuteMsg::Register {
            connection_id: "connection-1".to_string(),
            interchain_account_id: OSMOSIS_IC_ACCOUNT_ID.to_string(),
        },
        &None,
    )
    .unwrap();
    assert_eq!(
        registered.messages[0].msg,
        Msg::RegisterInterchainAccount {
            connection_id: "connection-1".to_string(),
            interchain_account_id: OSMOSIS_IC_ACCOUNT_ID.to_string(),
        }
    );
    assert!(!registered.messages[0].reply_on_success);
    assert_eq!(
        execute_return_funds(&mut state, &env(), DEPOSITOR.to_string(), 5, &fee()),
        Err(ContractError::AccountNotReady)
    );
    assert_eq!(get_ica(&state, &env(), OSMOSIS_IC_ACCOUNT_ID), Err(ContractError::AccountNotReady));
    sudo_open_ack(&mut state, PORT.to_string(), Some(version(ICA, "connection-1"))).unwrap();
    assert_eq!(
        get_ica(&state, &env(), OSMOSIS_IC_ACCOUNT_ID),
        Ok((ICA.to_string(), "connection-1".to_string()))
    );
}

#[test]
fn dispatch_attaches_only_fees_in_the_fee_denomination() {
    let mut state = ready_state();
    let info = MessageInfo { sender: DEPOSITOR.to_string(), funds: vec![coin("untrn", 5)] };
    let funded = execute_fund(&mut state, &env(), &info, &fee()).unwrap();
    let (_, _, timeout, attached) = submitted(&funded);
    assert_eq!(timeout, 1209600);
    assert_eq!(attached.recv_fee, vec![]);
    assert_eq!(attached.ack_fee, vec![coin("untrn", 1000)]);
    assert_eq!(attached.timeout_fee, vec![coin("untrn", 2000)]);
}

#[test]
fn swap_takes_the_timeout_it_is_given() {
    let mut state = ready_state();
    let info = MessageInfo { sender: DEPOSITOR.to_string(), funds: vec![coin("uatom", 299)] };
    let swapping = execute_ic_swap(&mut state, &env(), &info, Some(60), &fee()).unwrap();
    let (_, bytes, timeout, _) = submitted(&swapping);
    assert_eq!(timeout, 60);
    let swap = SwapExactAmountIn::decode(bytes.as_slice()).unwrap();
    assert_eq!(swap.token_in.unwrap().denom, "uatom");
    assert_eq!(swap.token_out_min_amount, "190");
    let staged = state.staged.as_ref().unwrap();
    assert_eq!(staged.port_id, PORT);
    assert_eq!(staged.message, "message");
    assert_eq!(staged.amount, None);
}

#[test]
fn a_second_dispatch_replaces_the_staged_payload() {
    let mut state = ready_state();
    execute_deploy(&mut state, &env(), "first".to_string(), 1, &fee()).unwrap();
    execute_deploy(&mut state, &env(), "second".to_string(), 2, &fee()).unwrap();
    assert_eq!(state.staged.as_ref().unwrap().sender, "second");
    confirm(&mut state, "channel-7", 4);
    let stored = state.consume(&"channel-7".to_string(), 4).unwrap();
    assert_eq!(stored.sender, "second");
    assert_eq!(stored.amount, Some(2));
    assert!(state.consume(&"channel-7".to_string(), 4).is_some());
    assert!(state.consume(&"channel-7".to_string(), 5).is_none());
}
