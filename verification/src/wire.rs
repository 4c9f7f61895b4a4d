//! What the library takes on trust from the crates it calls: the text of amounts, the
//! port identifier of a remote account, and the wire form of remote operations and of
//! their results. Nothing here is proved; each contract says what the named outside
//! function is relied on to do.

use crate::decimal::{decimal_text, parse_amount};
use cosmos_sdk_proto::traits::Message;
use vstd::prelude::*;

verus! {

/// `cosmwasm_std::StdError`: the error of the decoders and of the amount parser. The
/// library looks at none of it.
#[verifier::external_type_specification]
#[verifier::external_body]
pub struct ExStdError(cosmwasm_std::StdError);

/// `prost::EncodeError`: the error of the encoders. The library looks at none of it.
#[verifier::external_type_specification]
#[verifier::external_body]
pub struct ExEncodeError(cosmos_sdk_proto::prost::EncodeError);

/// `serde_json_wasm::de::Error`: the error of the JSON reader. The library looks at none
/// of it.
#[verifier::external_type_specification]
#[verifier::external_body]
pub struct ExJsonError(serde_json_wasm::de::Error);

/// `neutron_sdk::interchain_txs::helpers::get_port_id`: the controller port of a remote
/// account is the prefix `icacontroller-`, the contract's address, a dot and the
/// account's label, in this order.
#[verifier::external_body]
pub(crate) fn port_id(contract_address: &str, interchain_account_id: &str) -> (id: String)
    ensures
        id@ == "icacontroller-"@ + contract_address@ + "."@ + interchain_account_id@,
{
    neutron_sdk::interchain_txs::helpers::get_port_id(contract_address, interchain_account_id)
}

/// `cosmwasm_std::Uint128`'s `FromStr`, which is that of `u128`: it accepts an optional
/// `+` followed by decimal digits whose number fits in 128 bits, and nothing else.
#[verifier::external_body]
pub(crate) fn parse_uint128(text: &str) -> (res: Result<u128, cosmwasm_std::StdError>)
    ensures
        match res {
            Ok(amount) => parse_amount(text@) == Some(amount),
            Err(_) => parse_amount(text@) is None,
        },
{
    text.parse::<cosmwasm_std::Uint128>().map(|amount| amount.u128())
}

/// `cosmwasm_std::Uint128`'s `to_string`, which is that of `u128`: the decimal digits of
/// the number, without sign or leading zero.
#[verifier::external_body]
pub(crate) fn uint128_text(amount: u128) -> (text: String)
    ensures
        text@ == decimal_text(amount as nat),
{
    cosmwasm_std::Uint128::new(amount).to_string()
}

/// The messages that `decode_acknowledgement_response` reads out of the bytes of a remote
/// result, each with its type tag and its own bytes; `None` where it refuses the bytes.
pub uninterp spec fn acknowledgement_items(data: Seq<u8>) -> Option<Seq<(Seq<char>, Seq<u8>)>>;

/// `neutron_sdk::interchain_txs::helpers::decode_acknowledgement_response`: the result
/// depends on the bytes alone.
#[verifier::external_body]
pub(crate) fn decode_acknowledgement(data: &Vec<u8>) -> (res: Result<
    Vec<(String, Vec<u8>)>,
    cosmwasm_std::StdError,
>)
    ensures
        match res {
            Ok(items) => acknowledgement_items(data@) == Some(items.deep_view()),
            Err(_) => acknowledgement_items(data@) is None,
        },
{
    let items = neutron_sdk::interchain_txs::helpers::decode_acknowledgement_response(
        cosmwasm_std::Binary::from(data.as_slice()),
    )?;
    Ok(items.into_iter().map(|item| (item.msg_type, item.data)).collect())
}

/// The amount text that `decode_message_response` reads out of the bytes of a swap's
/// result; `None` where it refuses the bytes.
pub uninterp spec fn swap_response_amount(data: Seq<u8>) -> Option<Seq<char>>;

/// `neutron_sdk::interchain_txs::helpers::decode_message_response`, for
/// `MsgSwapExactAmountInResponse`: the result depends on the bytes alone.
#[verifier::external_body]
pub(crate) fn decode_swap_response(data: &Vec<u8>) -> (res: Result<String, cosmwasm_std::StdError>)
    ensures
        match res {
            Ok(amount) => swap_response_amount(data@) == Some(amount@),
            Err(_) => swap_response_amount(data@) is None,
        },
{
    let out: osmosis_std::types::osmosis::gamm::v1beta1::MsgSwapExactAmountInResponse =
        neutron_sdk::interchain_txs::helpers::decode_message_response(data)?;
    Ok(out.token_out_amount)
}

/// The data that `decode_message_response` reads out of the bytes of a contract call's
/// result; `None` where it refuses the bytes.
pub uninterp spec fn execute_response_data(data: Seq<u8>) -> Option<Seq<u8>>;

/// `neutron_sdk::interchain_txs::helpers::decode_message_response`, for
/// `MsgExecuteContractResponse`: the result depends on the bytes alone.
#[verifier::external_body]
pub(crate) fn decode_execute_response(data: &Vec<u8>) -> (res: Result<
    Vec<u8>,
    cosmwasm_std::StdError,
>)
    ensures
        match res {
            Ok(inner) => execute_response_data(data@) == Some(inner@),
            Err(_) => execute_response_data(data@) is None,
        },
{
    let out: osmosis_std::types::cosmwasm::wasm::v1::MsgExecuteContractResponse =
        neutron_sdk::interchain_txs::helpers::decode_message_response(data)?;
    Ok(out.data)
}

/// Whether `decode_message_response` accepts the bytes as a transfer's result.
pub uninterp spec fn transfer_response_accepted(data: Seq<u8>) -> bool;

/// `neutron_sdk::interchain_txs::helpers::decode_message_response`, for
/// `MsgTransferResponse`, which has no fields: whether it accepts depends on the bytes
/// alone.
#[verifier::external_body]
pub(crate) fn decode_transfer_response(data: &Vec<u8>) -> (res: Result<(), cosmwasm_std::StdError>)
    ensures
        res is Ok == transfer_response_accepted(data@),
{
    let _out: cosmos_sdk_proto::ibc::applications::transfer::v1::MsgTransferResponse =
        neutron_sdk::interchain_txs::helpers::decode_message_response(data)?;
    Ok(())
}

/// The sequence number and the channel that `serde_json_wasm::from_slice` reads out of the
/// bytes of a dispatch confirmation; `None` where it refuses the bytes.
pub uninterp spec fn submit_tx_ticket(data: Seq<u8>) -> Option<(u64, Seq<char>)>;

/// `serde_json_wasm::from_slice`, for `neutron_sdk`'s `MsgSubmitTxResponse`: the result
/// depends on the bytes alone.
#[verifier::external_body]
pub(crate) fn parse_submit_tx_response(data: &Vec<u8>) -> (res: Result<
    (u64, String),
    serde_json_wasm::de::Error,
>)
    ensures
        match res {
            Ok(ticket) => submit_tx_ticket(data@) == Some((ticket.0, ticket.1@)),
            Err(_) => submit_tx_ticket(data@) is None,
        },
{
    let resp: neutron_sdk::bindings::msg::MsgSubmitTxResponse = serde_json_wasm::from_slice(
        data.as_slice(),
    )?;
    Ok((resp.sequence_id, resp.channel))
}

/// The bytes that `prost` writes for a cross-chain transfer with these fields; `None`
/// where it reports that they do not fit the buffer.
pub uninterp spec fn transfer_wire(
    source_port: Seq<char>,
    source_channel: Seq<char>,
    denom: Seq<char>,
    amount: Seq<char>,
    sender: Seq<char>,
    receiver: Seq<char>,
    timeout_height: Option<(u64, u64)>,
    timeout_timestamp: u64,
) -> Option<Seq<u8>>;

/// `prost::Message::encode`, for `cosmos_sdk_proto`'s `MsgTransfer`, into an empty
/// vector: the result depends on the fields alone.
#[verifier::external_body]
pub(crate) fn encode_transfer(
    source_port: &str,
    source_channel: &str,
    denom: &str,
    amount: &str,
    sender: &str,
    receiver: &str,
    timeout_height: Option<(u64, u64)>,
    timeout_timestamp: u64,
) -> (res: Result<Vec<u8>, cosmos_sdk_proto::prost::EncodeError>)
    ensures
        match res {
            Ok(bytes) => transfer_wire(
                source_port@,
                source_channel@,
                denom@,
                amount@,
                sender@,
                receiver@,
                timeout_height,
                timeout_timestamp,
            ) == Some(bytes@),
            Err(_) => transfer_wire(
                source_port@,
                source_channel@,
                denom@,
                amount@,
                sender@,
                receiver@,
                timeout_height,
                timeout_timestamp,
            ) is None,
        },
{
    let token = cosmos_sdk_proto::cosmos::base::v1beta1::Coin { denom: denom.into(), amount: amount.into() };
    let height = timeout_height.map(|h| cosmos_sdk_proto::ibc::core::client::v1::Height { revision_number: h.0, revision_height: h.1 });
    let msg = cosmos_sdk_proto::ibc::applications::transfer::v1::MsgTransfer {
        source_port: source_port.into(),
        source_channel: source_channel.into(),
        token: Some(token),
        sender: sender.into(),
        receiver: receiver.into(),
        timeout_height: height,
        timeout_timestamp,
    };
    let mut buf = Vec::new();
    msg.encode(&mut buf)?;
    Ok(buf)
}

/// The bytes that `prost` writes for a remote swap with these fields; `None` where it
/// reports that they do not fit the buffer.
pub uninterp spec fn swap_wire(
    sender: Seq<char>,
    denom: Seq<char>,
    amount: Seq<char>,
    token_out_denom: Seq<char>,
    token_out_min_amount: Seq<char>,
    swap_fee: Seq<char>,
) -> Option<Seq<u8>>;

/// `prost::Message::encode`, for `osmosis_std`'s `SwapExactAmountIn`, into an empty
/// vector: the result depends on the fields alone.
#[verifier::external_body]
pub(crate) fn encode_swap(
    sender: &str,
    denom: &str,
    amount: &str,
    token_out_denom: &str,
    token_out_min_amount: &str,
    swap_fee: &str,
) -> (res: Result<Vec<u8>, cosmos_sdk_proto::prost::EncodeError>)
    ensures
        match res {
            Ok(bytes) => swap_wire(
                sender@,
                denom@,
                amount@,
                token_out_denom@,
                token_out_min_amount@,
                swap_fee@,
            ) == Some(bytes@),
            Err(_) => swap_wire(
                sender@,
                denom@,
                amount@,
                token_out_denom@,
                token_out_min_amount@,
                swap_fee@,
            ) is None,
        },
{
    let token = osmosis_std::types::cosmos::base::v1beta1::Coin { denom: denom.into(), amount: amount.into() };
    let msg = osmosis_std::types::osmosis::cosmwasmpool::v1beta1::SwapExactAmountIn {
        sender: sender.into(),
        token_in: Some(token),
        token_out_denom: token_out_denom.into(),
        token_out_min_amount: token_out_min_amount.into(),
        swap_fee: swap_fee.into(),
    };
    let mut buf = Vec::new();
    msg.encode(&mut buf)?;
    Ok(buf)
}

/// The bytes that `prost` writes for a call of a remote contract with these fields, the
/// funds each as denomination and amount; `None` where it reports that they do not fit
/// the buffer.
pub uninterp spec fn execute_wire(
    sender: Seq<char>,
    contract: Seq<char>,
    msg: Seq<char>,
    funds: Seq<(Seq<char>, Seq<char>)>,
) -> Option<Seq<u8>>;

/// `prost::Message::encode`, for `osmosis_std`'s `MsgExecuteContract`, into an empty
/// vector: the result depends on the fields alone.
#[verifier::external_body]
pub(crate) fn encode_execute(
    sender: &str,
    contract: &str,
    msg: &str,
    funds: &Vec<(String, String)>,
) -> (res: Result<Vec<u8>, cosmos_sdk_proto::prost::EncodeError>)
    ensures
        match res {
            Ok(bytes) => execute_wire(sender@, contract@, msg@, funds.deep_view()) == Some(bytes@),
            Err(_) => execute_wire(sender@, contract@, msg@, funds.deep_view()) is None,
        },
{
    let coins = funds.iter().map(|f| osmosis_std::types::cosmos::base::v1beta1::Coin { denom: f.0.clone(), amount: f.1.clone() });
    let call = osmosis_std::types::cosmwasm::wasm::v1::MsgExecuteContract {
        sender: sender.into(),
        contract: contract.into(),
        msg: msg.to_string().into(),
        funds: coins.collect(),
    };
    let mut buf = Vec::new();
    call.encode(&mut buf)?;
    Ok(buf)
}

} // verus!
