use cosmos_sdk_proto::ibc::applications::transfer::v1::MsgTransfer;
use cosmos_sdk_proto::traits::Message;
use interchain_vault::constants::{FEE_DENOM, REDBANK_OSMOSIS_ADDR};
use interchain_vault::contract::{
    dispatch, execute_claim, execute_deploy, execute_fund, execute_ic_swap,
    execute_return_funds, min_ntrn_ibc_fee, msg_with_sudo_callback,
};
use interchain_vault::error::ContractError;
use interchain_vault::response::{Msg, ProtobufAny, Response, SubMsg};
use interchain_vault::state::State;
use interchain_vault::table::{Key, Stored, Table};
use interchain_vault::types::{
    AcknowledgementResult, Coin, Env, IbcFee, MessageInfo, MinterData, RemoteAccount, Step,
    SudoPayload,
};
use osmosis_std::types::cosmwasm::wasm::v1::MsgExecuteContract;
use osmosis_std::types::osmosis::cosmwasmpool::v1beta1::SwapExactAmountIn;

const CONTRACT: &str = "neutron1contract";
const HOLDER: &str = "neutron1holder";
const ICA: &str = "osmo1remote";
const PORT: &str = "icacontroller-neutron1contract.babu_neutron_osmosis_v1";

fn env() -> Env {
    Env { contract_address: CONTRACT.to_string() }
}

fn coin(denom: &str, amount: u128) -> Coin {
    Coin { denom: denom.to_string(), amount }
}

fn fee() -> Option<IbcFee> {
    Some(IbcFee { recv_fee: vec![], ack_fee: vec![coin("untrn", 1)], timeout_fee: vec![] })
}

fn ready() -> State {
    let mut state = State::new(Some(MinterData { minter: CONTRACT.to_string(), cap: None }));
    state.confirm(
        PORT.to_string(),
        RemoteAccount { address: ICA.to_string(), connection_id: "connection-1".to_string() },
    );
    state
}

fn only_message(response: Response) -> ProtobufAny {
    let mut messages = response.messages;
    assert_eq!(messages.len(), 1);
    match messages.remove(0).msg {
        Msg::SubmitTx { mut msgs, .. } => {
            assert_eq!(msgs.len(), 1);
            msgs.remove(0)
        },
        other => panic!("unexpected message {:?}", other),
    }
}

#[test]
fn transfer_out_is_encoded_as_the_transfer_message() {
    let mut state = ready();
    let info = MessageInfo { sender: HOLDER.to_string(), funds: vec![coin("untrn", 1000), coin("uatom", 1)] };
    let any = only_message(execute_fund(&mut state, &env(), &info, &fee()).unwrap());
    let expected = MsgTransfer {
        source_port: "transfer".to_string(),
        source_channel: "channel-186".to_string(),
        token: Some(cosmos_sdk_proto::cosmos::base::v1beta1::Coin {
            denom: "untrn".to_string(),
            amount: "1000".to_string(),
        }),
        sender: CONTRACT.to_string(),
        receiver: ICA.to_string(),
        timeout_height: None,
        timeout_timestamp: 0,
    };
    assert_eq!(any.type_url, "/ibc.applications.transfer.v1.MsgTransfer");
    assert_eq!(any.value, expected.encode_to_vec());
    assert_eq!(
        state.staged,
        Some(SudoPayload {
            port_id: PORT.to_string(),
            message: "message".to_string(),
            sender: HOLDER.to_string(),
            executor: Step::TransferOut,
            amount: Some(1000),
        })
    );
}

#[test]
fn transfer_back_is_encoded_as_the_transfer_message() {
    let mut state = ready();
    let any = only_message(
        execute_return_funds(&mut state, &env(), HOLDER.to_string(), u128::MAX, &fee()).unwrap(),
    );
    let expected = MsgTransfer {
        source_port: "transfer".to_string(),
        source_channel: "channel-3515".to_string(),
        token: Some(cosmos_sdk_proto::cosmos::base::v1beta1::Coin {
            denom: "uusdc".to_string(),
            amount: "340282366920938463463374607431768211455".to_string(),
        }),
        sender: ICA.to_string(),
        receiver: CONTRACT.to_string(),
        timeout_height: None,
        timeout_timestamp: 0,
    };
    assert_eq!(any.value, expected.encode_to_vec());
}

#[test]
fn swap_is_encoded_with_the_minimum_output() {
    let mut state = ready();
    let info = MessageInfo { sender: HOLDER.to_string(), funds: vec![coin("untrn", 1099)] };
    let any = only_message(execute_ic_swap(&mut state, &env(), &info, None, &fee()).unwrap());
    let expected = SwapExactAmountIn {
        sender: ICA.to_string(),
        token_in: Some(osmosis_std::types::cosmos::base::v1beta1::Coin {
            denom: "untrn".to_string(),
            amount: "1099".to_string(),
        }),
        token_out_denom: "uusdc".to_string(),
        token_out_min_amount: "950".to_string(),
        swap_fee: "10".to_string(),
    };
    assert_eq!(any.type_url, "/osmosis.cosmwasmpool.v1beta1.SwapExactAmountIn");
    assert_eq!(any.value, expected.to_proto_bytes());
    let small = MessageInfo { sender: HOLDER.to_string(), funds: vec![coin("untrn", 99)] };
    let any = only_message(execute_ic_swap(&mut state, &env(), &small, None, &fee()).unwrap());
    let swap = SwapExactAmountIn::decode(any.value.as_slice()).unwrap();
    assert_eq!(swap.token_out_min_amount, "0");
    let large = MessageInfo { sender: HOLDER.to_string(), funds: vec![coin("untrn", u128::MAX)] };
    let any = only_message(execute_ic_swap(&mut state, &env(), &large, None, &fee()).unwrap());
    let swap = SwapExactAmountIn::decode(any.value.as_slice()).unwrap();
    assert_eq!(swap.token_out_min_amount, (u128::MAX / 100 * 95).to_string());
}

#[test]
fn pool_calls_are_encoded_as_contract_calls() {
    let mut state = ready();
    let any =
        only_message(execute_deploy(&mut state, &env(), HOLDER.to_string(), 950, &fee()).unwrap());
    let expected = MsgExecuteContract {
        sender: ICA.to_string(),
        contract: REDBANK_OSMOSIS_ADDR.to_string(),
        msg: b"{\"deposit\":{}}".to_vec(),
        funds: vec![osmosis_std::types::cosmos::base::v1beta1::Coin {
            denom: "uusdc".to_string(),
            amount: "950".to_string(),
        }],
    };
    assert_eq!(any.type_url, "/cosmwasm.wasm.v1.MsgExecuteContract");
    assert_eq!(any.value, expected.to_proto_bytes());

    let mut state = ready();
    interchain_vault::contract::execute_tokens_to_user(&mut state, &env(), HOLDER.to_string(), 9)
        .unwrap();
    let info = MessageInfo { sender: HOLDER.to_string(), funds: vec![] };
    let any = only_message(execute_claim(&mut state, &env(), &info, 4, &fee()).unwrap());
    let expected = MsgExecuteContract {
        sender: ICA.to_string(),
        contract: REDBANK_OSMOSIS_ADDR.to_string(),
        msg: b"{\"withdraw\":{}}".to_vec(),
        funds: vec![osmosis_std::types::cosmos::base::v1beta1::Coin {
            denom: "uusdc".to_string(),
            amount: "4".to_string(),
        }],
    };
    assert_eq!(any.value, expected.to_proto_bytes());
}

#[test]
fn fee_filter_keeps_order_and_receive_fee() {
    let fee = IbcFee {
        recv_fee: vec![coin("uatom", 3)],
        ack_fee: vec![coin("untrn", 1), coin("uatom", 2), coin(FEE_DENOM, 3), coin("UNTRN", 4)],
        timeout_fee: vec![coin("uusdc", 1)],
    };
    let filtered = min_ntrn_ibc_fee(fee);
    assert_eq!(filtered.recv_fee, vec![coin("uatom", 3)]);
    assert_eq!(filtered.ack_fee, vec![coin("untrn", 1), coin("untrn", 3)]);
    assert_eq!(filtered.timeout_fee, vec![]);
}

#[test]
fn callback_stages_and_wraps() {
    let mut state = State::new(None);
    let payload = SudoPayload {
        port_id: PORT.to_string(),
        message: "message".to_string(),
        sender: HOLDER.to_string(),
        executor: Step::Swap,
        amount: None,
    };
    let msg = Msg::BankSend { to_address: HOLDER.to_string(), amount: vec![] };
    let wrapped = msg_with_sudo_callback(&mut state, msg, payload.replicate());
    assert_eq!(
        wrapped,
        SubMsg {
            id: 1,
            msg: Msg::BankSend { to_address: HOLDER.to_string(), amount: vec![] },
            reply_on_success: true
        }
    );
    assert_eq!(state.staged, Some(payload));
}

#[test]
fn responses_follow_each_other() {
    let a = Response::new()
        .add_message(Msg::BankSend { to_address: "a".to_string(), amount: vec![] })
        .add_attribute("k".to_string(), "v".to_string());
    let b = Response::new()
        .add_submessage(SubMsg {
            id: 7,
            msg: Msg::BankSend { to_address: "b".to_string(), amount: vec![] },
            reply_on_success: true,
        })
        .add_attribute("k2".to_string(), "v2".to_string());
    let both = a.followed_by(b);
    assert_eq!(both.messages.len(), 2);
    assert_eq!(both.messages[0].id, 0);
    assert!(!both.messages[0].reply_on_success);
    assert_eq!(both.messages[1].id, 7);
    assert_eq!(
        both.attributes,
        vec![("k".to_string(), "v".to_string()), ("k2".to_string(), "v2".to_string())]
    );
}

#[test]
fn tables_hold_one_value_per_key() {
    let mut table: Table<(String, u64), String> = Table::new();
    assert!(!table.contains(&("a".to_string(), 1)));
    table.insert(("a".to_string(), 1), "x".to_string());
    table.insert(("a".to_string(), 2), "y".to_string());
    table.insert(("a".to_string(), 1), "z".to_string());
    assert_eq!(table.get(&("a".to_string(), 1)), Some(&"z".to_string()));
    assert_eq!(table.get(&("a".to_string(), 2)), Some(&"y".to_string()));
    assert_eq!(table.get(&("b".to_string(), 1)), None);
    assert_eq!(table.entries().len(), 2);
    let rebuilt: Table<String, u128> =
        Table::from_entries(&vec![("k".to_string(), 1), ("l".to_string(), 2), ("k".to_string(), 3)]);
    assert_eq!(rebuilt.get(&"k".to_string()), Some(&3));
    assert_eq!(rebuilt.checked_total(), Some(5));
    let mut amounts = rebuilt.duplicate_amounts();
    amounts.set_amount("l".to_string(), u128::MAX);
    assert_eq!(amounts.checked_total(), None);
    assert_eq!(amounts.get(&"l".to_string()), Some(&u128::MAX));
    assert!(("a".to_string(), 1u64).same(&("a".to_string(), 1u64)));
    assert!(!("a".to_string(), 1u64).same(&("a".to_string(), 2u64)));
    assert!(!"a".to_string().same(&"b".to_string()));
}

#[test]
fn copies_equal_their_originals() {
    let result = AcknowledgementResult::Error(("l".to_string(), "d".to_string()));
    assert_eq!(result.replicate(), result);
    let result = AcknowledgementResult::Success(vec!["a".to_string(), "b".to_string()]);
    assert_eq!(result.replicate(), result);
    let fee = fee().unwrap();
    assert_eq!(fee.replicate(), fee);
    let minter = MinterData { minter: "m".to_string(), cap: Some(3) };
    assert_eq!(minter.replicate(), minter);
    assert_eq!(Some(coin("a", 1)).replicate(), Some(coin("a", 1)));
}

#[test]
fn failures_and_steps_have_their_words() {
    assert_eq!(ContractError::NoFunds.message(), "No funds sent to contract");
    assert_eq!(ContractError::CapExceeded.message(), "Cannot Exceed Cap");
    assert_eq!(ContractError::InsufficientBalance.message(), "Cannot claim more than you have");
    assert_eq!(ContractError::AlreadyResolved.message(), "trying to update same seq_id");
    assert_eq!(ContractError::SequenceMissing.message(), "sequence not found");
    assert_eq!(ContractError::ChannelMissing.message(), "channel_id not found");
    let steps = [
        Step::TransferOut,
        Step::Swap,
        Step::Deposit,
        Step::IssueShares,
        Step::Withdraw,
        Step::TransferBack,
    ];
    for step in steps {
        assert_eq!(Step::from_name(&step.name()), Some(step));
    }
    assert_eq!(Step::Deposit.name(), "execute_fund");
    assert_eq!(Step::TransferOut.name(), "execute_fund_to_osmosis");
    assert_eq!(Step::from_name(&"execute".to_string()), None);
}

#[test]
fn dispatch_hands_the_wire_form_back_and_stages_the_payload() {
    let mut state = ready();
    let account = RemoteAccount { address: ICA.to_string(), connection_id: "connection-4".to_string() };
    let attached = IbcFee { recv_fee: vec![], ack_fee: vec![coin("uatom", 2)], timeout_fee: vec![] };
    let failed = dispatch(
        &mut state,
        &env(),
        &account,
        attached.replicate(),
        None,
        "/some.Type",
        30,
        HOLDER.to_string(),
        Step::Withdraw,
        Some(3),
    );
    assert_eq!(failed, Err(ContractError::EncodeFailed));
    assert!(state.staged.is_none());
    let sent = dispatch(
        &mut state,
        &env(),
        &account,
        attached.replicate(),
        Some(vec![9, 8, 7]),
        "/some.Type",
        30,
        HOLDER.to_string(),
        Step::Withdraw,
        Some(3),
    )
    .unwrap();
    assert_eq!(
        sent,
        Response::new().add_submessage(SubMsg {
            id: 1,
            msg: Msg::SubmitTx {
                connection_id: "connection-4".to_string(),
                interchain_account_id: "babu_neutron_osmosis_v1".to_string(),
                msgs: vec![ProtobufAny { type_url: "/some.Type".to_string(), value: vec![9, 8, 7] }],
                memo: "".to_string(),
                timeout: 30,
                fee: attached,
            },
            reply_on_success: true,
        })
    );
    assert_eq!(
        state.staged,
        Some(SudoPayload {
            port_id: PORT.to_string(),
            message: "message".to_string(),
            sender: HOLDER.to_string(),
            executor: Step::Withdraw,
            amount: Some(3),
        })
    );
}
