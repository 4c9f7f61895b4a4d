//! The entry points of the contract and the steps of its pipeline.

use crate::constants::{
    DEFAULT_TIMEOUT_SECONDS, DEPOSIT_REQUEST, EXECUTE_TYPE_URL, FEE_DENOM, MIN_OUT_PERCENT,
    MISSING_PAYLOAD_NOTE, OSMOSIS_IC_ACCOUNT_ID, PAYLOAD_LABEL, REDBANK_OSMOSIS_ADDR, SETTLEMENT_DENOM,
    SWAP_FEE, SWAP_TYPE_URL, TRANSFER_BACK_CHANNEL, TRANSFER_OUT_CHANNEL, TRANSFER_PORT,
    TRANSFER_TYPE_URL, WITHDRAW_REQUEST,
};
use crate::error::ContractError;
use crate::model;
use crate::response::{Msg, ProtobufAny, Response, SubMsg};
use crate::state::State;
use crate::table::Stored;
use crate::msg::{
    AddressQuery, ExecuteMsg, QueryMsg, QueryResponse, Reply, SubMsgResult, SudoMsg,
};
use crate::types::{
    AcknowledgementResult, Coin, Env, IbcFee, MessageInfo, OpenAckVersion, RemoteAccount,
    RequestPacket, Step, SudoPayload,
};
use crate::wire;
use vstd::prelude::*;

verus! {

fn keep_fee_denom(coins: &Vec<Coin>) -> (r: Vec<Coin>)
    ensures
        r.deep_view() == model::fee_denom_only(coins.deep_view()),
{
    let denom = FEE_DENOM.to_owned();
    let mut out: Vec<Coin> = Vec::new();
    let mut i: usize = 0;
    proof {
        reveal(Seq::filter);
        assert(coins.deep_view().take(0) =~= Seq::empty());
    }
    while i < coins.len()
        invariant
            i <= coins@.len(),
            denom@ == FEE_DENOM@,
            out.deep_view() == model::fee_denom_only(coins.deep_view().take(i as int)),
        decreases coins@.len() - i,
    {
        let ghost before = out.deep_view();
        proof {
            reveal(Seq::filter);
            let next = coins.deep_view().take(i + 1);
            assert(next.drop_last() =~= coins.deep_view().take(i as int));
            assert(next.last() == coins@[i as int].deep_view());
        }
        if coins[i].denom == denom {
            out.push(coins[i].replicate());
            assert(out.deep_view() =~= before.push(coins@[i as int].deep_view()));
        }
        i += 1;
    }
    assert(coins.deep_view().take(i as int) =~= coins.deep_view());
    out
}

/// The fee to attach to a dispatch: of the acknowledgement and timeout fees only what is
/// paid in the fee denomination, in the order given; the receive fee as it is.
pub fn min_ntrn_ibc_fee(fee: IbcFee) -> (r: IbcFee)
    ensures
        r@ == model::min_fee(fee@),
{
    let ack_fee = keep_fee_denom(&fee.ack_fee);
    let timeout_fee = keep_fee_denom(&fee.timeout_fee);
    IbcFee { recv_fee: fee.recv_fee, ack_fee, timeout_fee }
}

/// The address and the connection of the remote account with the given label. It fails
/// with `AccountNotFound` where the label was never registered, and with
/// `AccountNotReady` where the account's creation is not confirmed.
pub fn get_ica(state: &State, env: &Env, interchain_account_id: &str) -> (res: Result<
    (String, String),
    ContractError,
>)
    requires
        state.wf(),
    ensures
        match res {
            Ok(found) => state@.resolve(
                model::controller_port(env.contract_address@, interchain_account_id@),
            ) == Ok::<crate::types::RemoteAccountView, ContractError>(
                crate::types::RemoteAccountView { address: found.0@, connection_id: found.1@ },
            ),
            Err(e) => state@.resolve(
                model::controller_port(env.contract_address@, interchain_account_id@),
            ) == Err::<crate::types::RemoteAccountView, ContractError>(e),
        },
{
    let key = wire::port_id(env.contract_address.as_str(), interchain_account_id);
    match state.resolve(&key) {
        Ok(account) => Ok((account.address, account.connection_id)),
        Err(e) => Err(e),
    }
}

/// Stages the payload and wraps the operation for dispatch, with the handle by which the
/// dispatch's confirmation finds the payload again.
pub fn msg_with_sudo_callback(state: &mut State, msg: Msg, payload: SudoPayload) -> (r: SubMsg)
    ensures
        final(state)@ == old(state)@.staging(payload@),
        old(state).wf() ==> final(state).wf(),
        r@ == (crate::response::SubMsgView {
            id: crate::constants::SUDO_PAYLOAD_REPLY_ID,
            msg: msg@,
            reply_on_success: true,
        }),
{
    let id = state.stage(payload);
    SubMsg { id, msg, reply_on_success: true }
}

fn prepare(state: &State, env: &Env, min_fee: &Option<IbcFee>) -> (res: Result<
    (IbcFee, RemoteAccount),
    ContractError,
>)
    requires
        state.wf(),
    ensures
        match res {
            Ok(ready) => min_fee is Some && ready.0@ == model::min_fee(min_fee->0@)
                && model::prepared(state@, env.contract_address@, min_fee.deep_view()) == Ok::<
                crate::types::RemoteAccountView,
                ContractError,
            >(ready.1@),
            Err(e) => model::prepared(state@, env.contract_address@, min_fee.deep_view())
                == Err::<crate::types::RemoteAccountView, ContractError>(e),
        },
{
    let fee = match min_fee {
        None => {
            return Err(ContractError::FeeUnavailable);
        },
        Some(f) => min_ntrn_ibc_fee(f.replicate()),
    };
    let key = wire::port_id(env.contract_address.as_str(), OSMOSIS_IC_ACCOUNT_ID);
    match state.resolve(&key) {
        Ok(account) => Ok((fee, account)),
        Err(e) => Err(e),
    }
}

fn wire_form(encoded: Result<Vec<u8>, cosmos_sdk_proto::prost::EncodeError>) -> (wire: Option<
    Vec<u8>,
>)
    ensures
        match wire {
            Some(bytes) => encoded matches Ok(b) && b@ == bytes@,
            None => encoded is Err,
        },
{
    match encoded {
        Ok(bytes) => Some(bytes),
        Err(_) => None,
    }
}

/// The wire form of an operation, if it has one.
pub open spec fn wire_of(wire: Option<Vec<u8>>) -> Option<Seq<u8>> {
    match wire {
        Some(bytes) => Some(bytes@),
        None => None,
    }
}

/// Dispatches a remote operation, given in its wire form, through the pipeline's remote
/// account: the payload that records the sender, the step and the amount is staged, and
/// the operation is handed back for dispatch with the fee attached and a confirmation
/// asked for.
///
/// It fails with `EncodeFailed`, and changes nothing, where the operation has no wire
/// form.
pub fn dispatch(
    state: &mut State,
    env: &Env,
    account: &RemoteAccount,
    fee: IbcFee,
    wire: Option<Vec<u8>>,
    type_url: &str,
    timeout: u64,
    sender: String,
    step: Step,
    amount: Option<u128>,
) -> (res: Result<Response, ContractError>)
    requires
        old(state).wf(),
    ensures
        final(state).wf(),
        model::agrees(
            res,
            old(state)@,
            final(state)@,
            model::dispatched(
                old(state)@,
                account@,
                fee@,
                wire_of(wire),
                type_url@,
                timeout,
                model::pipeline_payload(env.contract_address@, sender@, step, amount),
            ),
        ),
{
    let bytes = match wire {
        None => {
            return Err(ContractError::EncodeFailed);
        },
        Some(b) => b,
    };
    let any = ProtobufAny { type_url: type_url.to_owned(), value: bytes };
    let mut msgs: Vec<ProtobufAny> = Vec::new();
    msgs.push(any);
    assert(msgs.deep_view() =~= seq![any@]);
    let msg = Msg::SubmitTx {
        connection_id: account.connection_id.clone(),
        interchain_account_id: OSMOSIS_IC_ACCOUNT_ID.to_owned(),
        msgs,
        memo: String::new(),
        timeout,
        fee,
    };
    let payload = SudoPayload {
        port_id: wire::port_id(env.contract_address.as_str(), OSMOSIS_IC_ACCOUNT_ID),
        message: PAYLOAD_LABEL.to_owned(),
        sender,
        executor: step,
        amount,
    };
    let submsg = msg_with_sudo_callback(state, msg, payload);
    let r = Response::new().add_submessage(submsg);
    assert(r@.messages =~= seq![submsg@]);
    assert(r@.attributes =~= Seq::empty());
    Ok(r)
}

/// The first step of a deposit: the first of the funds attached to the call is sent to the
/// remote account, and the payload of the dispatch records the caller as the depositor
/// together with the amount.
///
/// It fails with `NoFunds` where no funds are attached, with `FeeUnavailable` where the
/// minimum fee is not known, with `AccountNotFound` or `AccountNotReady` where the remote
/// account cannot be used, and with `EncodeFailed` where the transfer has no wire form.
pub fn execute_fund(state: &mut State, env: &Env, info: &MessageInfo, min_fee: &Option<IbcFee>) -> (res:
    Result<Response, ContractError>)
    requires
        old(state).wf(),
    ensures
        final(state).wf(),
        model::agrees(
            res,
            old(state)@,
            final(state)@,
            model::fund(
                old(state)@,
                env.contract_address@,
                info.sender@,
                info.funds.deep_view(),
                min_fee.deep_view(),
            ),
        ),
{
    if info.funds.len() == 0 {
        return Err(ContractError::NoFunds);
    }
    let funds = &info.funds[0];
    assert(info.funds.deep_view()[0] == funds@);
    let (fee, account) = match prepare(state, env, min_fee) {
        Err(e) => {
            return Err(e);
        },
        Ok(ready) => ready,
    };
    let amount = wire::uint128_text(funds.amount);
    let encoded = wire::encode_transfer(
        TRANSFER_PORT,
        TRANSFER_OUT_CHANNEL,
        funds.denom.as_str(),
        amount.as_str(),
        env.contract_address.as_str(),
        account.address.as_str(),
        None,
        0,
    );
    dispatch(
        state,
        env,
        &account,
        fee,
        wire_form(encoded),
        TRANSFER_TYPE_URL,
        DEFAULT_TIMEOUT_SECONDS,
        info.sender.clone(),
        Step::TransferOut,
        Some(funds.amount),
    )
}

/// The third step of a deposit: `value` of the settlement asset goes from the remote account
/// into the yield pool on behalf of `sender`, and the payload of the dispatch records
/// both.
///
/// It fails with `FeeUnavailable` where the minimum fee is not known, with
/// `AccountNotFound` or `AccountNotReady` where the remote account cannot be used, and
/// with `EncodeFailed` where the call has no wire form.
pub fn execute_deploy(
    state: &mut State,
    env: &Env,
    sender: String,
    value: u128,
    min_fee: &Option<IbcFee>,
) -> (res: Result<Response, ContractError>)
    requires
        old(state).wf(),
    ensures
        final(state).wf(),
        model::agrees(
            res,
            old(state)@,
            final(state)@,
            model::deploy(old(state)@, env.contract_address@, sender@, value, min_fee.deep_view()),
        ),
{
    let (fee, account) = match prepare(state, env, min_fee) {
        Err(e) => {
            return Err(e);
        },
        Ok(ready) => ready,
    };
    let funds = pool_funds(value);
    let encoded = wire::encode_execute(
        account.address.as_str(),
        REDBANK_OSMOSIS_ADDR,
        DEPOSIT_REQUEST,
        &funds,
    );
    dispatch(
        state,
        env,
        &account,
        fee,
        wire_form(encoded),
        EXECUTE_TYPE_URL,
        DEFAULT_TIMEOUT_SECONDS,
        sender,
        Step::Deposit,
        Some(value),
    )
}

fn pool_funds(amount: u128) -> (funds: Vec<(String, String)>)
    ensures
        funds.deep_view() == model::pool_funds(amount),
{
    let mut funds: Vec<(String, String)> = Vec::new();
    let coin = (SETTLEMENT_DENOM.to_owned(), wire::uint128_text(amount));
    funds.push(coin);
    assert(funds.deep_view() =~= seq![coin.deep_view()]);
    funds
}

/// The last step of a deposit: the pool's value grows by `value`, and the contract mints to
/// `sender` the shares that the value is worth at the rate before. While the pool holds
/// no value, a deposit is worth its own amount in shares.
///
/// It fails with `Overflow` where the shares, the pool's value or the supply would pass
/// 128 bits, with `MinterNotConfigured` or `Unauthorized` where the contract is not the
/// minting principal, and with `CapExceeded` where the supply would pass the cap.
pub fn execute_tokens_to_user(state: &mut State, env: &Env, sender: String, value: u128) -> (res:
    Result<Response, ContractError>)
    requires
        old(state).wf(),
    ensures
        final(state).wf(),
        model::agrees(
            res,
            old(state)@,
            final(state)@,
            model::tokens_to_user(old(state)@, env.contract_address@, sender@, value),
        ),
{
    match state.ledger.issue(&env.contract_address, sender, value) {
        Err(e) => Err(e),
        Ok(_) => Ok(Response::new()),
    }
}

/// The second step of a deposit: the first of the given funds is swapped into the settlement
/// asset on the remote chain. The swap accepts no less than 95 units for every full
/// hundred that goes in.
///
/// It fails with `NoFunds` where no funds are given, with `FeeUnavailable` where the
/// minimum fee is not known, with `AccountNotFound` or `AccountNotReady` where the remote
/// account cannot be used, and with `EncodeFailed` where the swap has no wire form.
pub fn execute_ic_swap(
    state: &mut State,
    env: &Env,
    info: &MessageInfo,
    timeout: Option<u64>,
    min_fee: &Option<IbcFee>,
) -> (res: Result<Response, ContractError>)
    requires
        old(state).wf(),
    ensures
        final(state).wf(),
        model::agrees(
            res,
            old(state)@,
            final(state)@,
            model::swap(
                old(state)@,
                env.contract_address@,
                info.sender@,
                info.funds.deep_view(),
                timeout,
                min_fee.deep_view(),
            ),
        ),
{
    if info.funds.len() == 0 {
        return Err(ContractError::NoFunds);
    }
    let coin = &info.funds[0];
    assert(info.funds.deep_view()[0] == coin@);
    let (fee, account) = match prepare(state, env, min_fee) {
        Err(e) => {
            return Err(e);
        },
        Ok(ready) => ready,
    };
    let amount = wire::uint128_text(coin.amount);
    let least = wire::uint128_text(coin.amount / 100 * MIN_OUT_PERCENT);
    let encoded = wire::encode_swap(
        account.address.as_str(),
        coin.denom.as_str(),
        amount.as_str(),
        SETTLEMENT_DENOM,
        least.as_str(),
        SWAP_FEE,
    );
    let limit = match timeout {
        Some(t) => t,
        None => DEFAULT_TIMEOUT_SECONDS,
    };
    dispatch(
        state,
        env,
        &account,
        fee,
        wire_form(encoded),
        SWAP_TYPE_URL,
        limit,
        info.sender.clone(),
        Step::Swap,
        None,
    )
}

/// The first step of a redemption: the caller claims `amount` of the shares that the
/// caller owns, and what they are worth at the ledger's rate is withdrawn from the yield
/// pool. The payload of the dispatch records the caller and the shares claimed. The
/// caller's balance stays as it is until the funds are released.
///
/// It fails with `InsufficientBalance` exactly where the caller owns less than `amount`,
/// a caller without a record owning nothing. It fails with `Overflow` where the worth
/// passes 128 bits, with `FeeUnavailable` where the minimum fee is not known, with
/// `AccountNotFound` or `AccountNotReady` where the remote account cannot be used, and
/// with `EncodeFailed` where the call has no wire form.
pub fn execute_claim(
    state: &mut State,
    env: &Env,
    info: &MessageInfo,
    amount: u128,
    min_fee: &Option<IbcFee>,
) -> (res: Result<Response, ContractError>)
    requires
        old(state).wf(),
    ensures
        final(state).wf(),
        model::agrees(
            res,
            old(state)@,
            final(state)@,
            model::claim(
                old(state)@,
                env.contract_address@,
                info.sender@,
                amount,
                min_fee.deep_view(),
            ),
        ),
        res == Err::<Response, ContractError>(ContractError::InsufficientBalance) <==> amount > old(
            state,
        )@.ledger.balance_of(info.sender@),
{
    let held = match state.ledger.balance(&info.sender) {
        Some(b) => b,
        None => 0,
    };
    if held < amount {
        return Err(ContractError::InsufficientBalance);
    }
    let value = match state.ledger.redeemable(amount) {
        None => {
            return Err(ContractError::Overflow);
        },
        Some(v) => v,
    };
    let (fee, account) = match prepare(state, env, min_fee) {
        Err(e) => {
            return Err(e);
        },
        Ok(ready) => ready,
    };
    let funds = pool_funds(value);
    let encoded = wire::encode_execute(
        account.address.as_str(),
        REDBANK_OSMOSIS_ADDR,
        WITHDRAW_REQUEST,
        &funds,
    );
    dispatch(
        state,
        env,
        &account,
        fee,
        wire_form(encoded),
        EXECUTE_TYPE_URL,
        DEFAULT_TIMEOUT_SECONDS,
        info.sender.clone(),
        Step::Withdraw,
        Some(amount),
    )
}

/// The third step of a redemption, after the withdrawal: `amount` of the settlement asset is sent from the remote
/// account back to the contract on behalf of `sender`, and the payload of the dispatch
/// records both.
///
/// It fails with `FeeUnavailable` where the minimum fee is not known, with
/// `AccountNotFound` or `AccountNotReady` where the remote account cannot be used, and
/// with `EncodeFailed` where the transfer has no wire form.
pub fn execute_return_funds(
    state: &mut State,
    env: &Env,
    sender: String,
    amount: u128,
    min_fee: &Option<IbcFee>,
) -> (res: Result<Response, ContractError>)
    requires
        old(state).wf(),
    ensures
        final(state).wf(),
        model::agrees(
            res,
            old(state)@,
            final(state)@,
            model::return_funds(
                old(state)@,
                env.contract_address@,
                sender@,
                amount,
                min_fee.deep_view(),
            ),
        ),
{
    let (fee, account) = match prepare(state, env, min_fee) {
        Err(e) => {
            return Err(e);
        },
        Ok(ready) => ready,
    };
    let text = wire::uint128_text(amount);
    let encoded = wire::encode_transfer(
        TRANSFER_PORT,
        TRANSFER_BACK_CHANNEL,
        SETTLEMENT_DENOM,
        text.as_str(),
        account.address.as_str(),
        env.contract_address.as_str(),
        None,
        0,
    );
    dispatch(
        state,
        env,
        &account,
        fee,
        wire_form(encoded),
        TRANSFER_TYPE_URL,
        DEFAULT_TIMEOUT_SECONDS,
        sender,
        Step::TransferBack,
        Some(amount),
    )
}

/// The last step of a redemption: `sender`'s balance is debited by `amount`, and the
/// same amount of the settlement asset is paid to `sender`.
///
/// It fails with `InsufficientBalance` exactly where `sender` owns less than `amount`.
pub fn execute_return_funds_user(state: &mut State, sender: String, amount: u128) -> (res: Result<
    Response,
    ContractError,
>)
    requires
        old(state).wf(),
    ensures
        final(state).wf(),
        model::agrees(
            res,
            old(state)@,
            final(state)@,
            model::return_funds_user(old(state)@, sender@, amount),
        ),
{
    let to_address = sender.clone();
    match state.ledger.debit(sender, amount) {
        Err(e) => Err(e),
        Ok(_) => {
            let coin = Coin { denom: SETTLEMENT_DENOM.to_owned(), amount };
            let mut coins: Vec<Coin> = Vec::new();
            coins.push(coin);
            assert(coins.deep_view() =~= seq![coin@]);
            let r = Response::new().add_message(Msg::BankSend { to_address, amount: coins });
            assert(r@.messages =~= seq![model::payout(to_address@, amount)]);
            assert(r@.attributes =~= Seq::empty());
            Ok(r)
        },
    }
}

/// Mints `amount` shares to `recipient` in the name of the caller: the supply and the
/// recipient's balance grow by the amount, and the response logs the minting.
///
/// It fails with `MinterNotConfigured` where no minting principal is configured, with
/// `Unauthorized` where the caller is not that principal, with `Overflow` where the
/// supply would pass 128 bits, and with `CapExceeded` where a cap is configured and the
/// supply would pass it.
pub fn execute_mint(state: &mut State, info: &MessageInfo, recipient: String, amount: u128) -> (res:
    Result<Response, ContractError>)
    requires
        old(state).wf(),
    ensures
        final(state).wf(),
        model::agrees(
            res,
            old(state)@,
            final(state)@,
            model::mint(old(state)@, info.sender@, recipient@, amount),
        ),
        old(state)@.ledger.mint matches Some(m) && m.cap matches Some(limit) && old(
            state,
        )@.ledger.total_supply + amount > limit ==> res is Err,
{
    let to = recipient.clone();
    match state.ledger.mint(&info.sender, recipient, amount) {
        Err(e) => Err(e),
        Ok(_) => {
            let r = Response::new().add_attribute("action".to_owned(), "mint".to_owned())
                .add_attribute("to".to_owned(), to).add_attribute(
                "amount".to_owned(),
                wire::uint128_text(amount),
            );
            assert(r@.attributes =~= seq![
                ("action"@, "mint"@),
                ("to"@, recipient@),
                ("amount"@, crate::decimal::decimal_text(amount as nat)),
            ]);
            Ok(r)
        },
    }
}

/// Registers a remote account with the given label: its key is registered without an
/// account, in place of what the key held, and the transport is asked to create the
/// account over the given connection.
pub fn execute_register_ica(
    state: &mut State,
    env: &Env,
    connection_id: String,
    interchain_account_id: String,
) -> (res: Result<Response, ContractError>)
    requires
        old(state).wf(),
    ensures
        final(state).wf(),
        model::agrees(
            res,
            old(state)@,
            final(state)@,
            model::register_ica(
                old(state)@,
                env.contract_address@,
                connection_id@,
                interchain_account_id@,
            ),
        ),
{
    let key = wire::port_id(env.contract_address.as_str(), interchain_account_id.as_str());
    state.register(key);
    let r = Response::new().add_message(
        Msg::RegisterInterchainAccount { connection_id, interchain_account_id },
    );
    assert(r@.messages =~= seq![
        crate::response::plain_message(
            crate::response::MsgView::RegisterInterchainAccount {
                connection_id: connection_id@,
                interchain_account_id: interchain_account_id@,
            },
        ),
    ]);
    assert(r@.attributes =~= Seq::empty());
    Ok(r)
}

/// The decoded result of one remote message.
#[derive(Debug, PartialEq, Eq)]
pub enum RemoteOutcome {
    /// A swap came out with this amount text.
    Swapped { token_out_amount: String },
    /// A call of a remote contract returned this data.
    Executed { data: Vec<u8> },
    /// A cross-chain transfer went through.
    Transferred,
}

impl DeepView for RemoteOutcome {
    type V = model::RemoteOutcomeView;

    open spec fn deep_view(&self) -> model::RemoteOutcomeView {
        match self {
            RemoteOutcome::Swapped { token_out_amount } => model::RemoteOutcomeView::Swapped {
                token_out_amount: token_out_amount@,
            },
            RemoteOutcome::Executed { data } => model::RemoteOutcomeView::Executed { data: data@ },
            RemoteOutcome::Transferred => model::RemoteOutcomeView::Transferred,
        }
    }
}

impl View for RemoteOutcome {
    type V = model::RemoteOutcomeView;

    open spec fn view(&self) -> model::RemoteOutcomeView {
        self.deep_view()
    }
}

/// Decodes the result of a remote message with the given type tag, for a payload of the
/// given step. A swap's result is decoded whatever the step; a contract call's and a
/// transfer's only for the steps that dispatch them.
///
/// It fails with `UnknownMessageType` where the tag is none of the three that the
/// pipeline dispatches, with `UnsupportedCombination` where tag and step do not belong
/// together, and with `MalformedMessage` where the bytes cannot be decoded.
pub fn decode_outcome(tag: &String, data: &Vec<u8>, step: Step) -> (res: Result<
    RemoteOutcome,
    ContractError,
>)
    ensures
        match res {
            Ok(outcome) => model::outcome_of(tag@, data@, step) == Ok::<
                model::RemoteOutcomeView,
                ContractError,
            >(outcome@),
            Err(e) => model::outcome_of(tag@, data@, step) == Err::<
                model::RemoteOutcomeView,
                ContractError,
            >(e),
        },
{
    if *tag == SWAP_TYPE_URL.to_owned() {
        match wire::decode_swap_response(data) {
            Err(_) => Err(ContractError::MalformedMessage),
            Ok(text) => Ok(RemoteOutcome::Swapped { token_out_amount: text }),
        }
    } else if *tag == EXECUTE_TYPE_URL.to_owned() {
        if step == Step::TransferOut || step == Step::Swap {
            Err(ContractError::UnsupportedCombination)
        } else {
            match wire::decode_execute_response(data) {
                Err(_) => Err(ContractError::MalformedMessage),
                Ok(inner) => Ok(RemoteOutcome::Executed { data: inner }),
            }
        }
    } else if *tag == TRANSFER_TYPE_URL.to_owned() {
        if step != Step::TransferOut {
            Err(ContractError::UnsupportedCombination)
        } else {
            match wire::decode_transfer_response(data) {
                Err(_) => Err(ContractError::MalformedMessage),
                Ok(_) => Ok(RemoteOutcome::Transferred),
            }
        }
    } else {
        Err(ContractError::UnknownMessageType)
    }
}

/// Takes the next step of the pipeline after a remote message succeeded. Which step is
/// decided by the kind of the result together with the step that the payload records:
/// after a swap the deposit of what came out; after a deposit the issue of shares; after
/// a withdrawal the transfer back; after a transfer back the release; after the transfer
/// out the swap; after an issue of shares nothing.
///
/// It fails with `MalformedAmount` where a swap's output is no amount, with
/// `AmountMissing` where the payload of a withdrawal or a transfer back records no
/// amount, with `UnsupportedCombination` where result and step do not belong together,
/// and with `DeployFailed`, `IssueFailed`, `ReturnFundsFailed`, `ReleaseFailed` or
/// `SwapFailed` where the step that was to follow fails.
pub fn resume(
    state: &mut State,
    env: &Env,
    payload: &SudoPayload,
    outcome: &RemoteOutcome,
    min_fee: &Option<IbcFee>,
) -> (res: Result<Response, ContractError>)
    requires
        old(state).wf(),
    ensures
        final(state).wf(),
        model::agrees(
            res,
            old(state)@,
            final(state)@,
            model::resumed(
                old(state)@,
                env.contract_address@,
                payload@,
                outcome@,
                min_fee.deep_view(),
            ),
        ),
{
    match outcome {
        RemoteOutcome::Swapped { token_out_amount } => {
            let value = match wire::parse_uint128(token_out_amount.as_str()) {
                Err(_) => {
                    return Err(ContractError::MalformedAmount);
                },
                Ok(v) => v,
            };
            match execute_deploy(state, env, payload.sender.clone(), value, min_fee) {
                Ok(r) => Ok(r),
                Err(_) => Err(ContractError::DeployFailed),
            }
        },
        RemoteOutcome::Executed { data } => match payload.executor {
            Step::Deposit => match payload.amount {
                None => Err(ContractError::IssueFailed),
                Some(amount) => match execute_tokens_to_user(
                    state,
                    env,
                    payload.sender.clone(),
                    amount,
                ) {
                    Ok(r) => Ok(r),
                    Err(_) => Err(ContractError::IssueFailed),
                },
            },
            Step::IssueShares => Ok(Response::new()),
            Step::Withdraw => match payload.amount {
                None => Err(ContractError::AmountMissing),
                Some(amount) => match execute_return_funds(
                    state,
                    env,
                    payload.sender.clone(),
                    amount,
                    min_fee,
                ) {
                    Ok(r) => Ok(r),
                    Err(_) => Err(ContractError::ReturnFundsFailed),
                },
            },
            Step::TransferBack => match payload.amount {
                None => Err(ContractError::AmountMissing),
                Some(amount) => match execute_return_funds_user(
                    state,
                    payload.sender.clone(),
                    amount,
                ) {
                    Ok(r) => Ok(r),
                    Err(_) => Err(ContractError::ReleaseFailed),
                },
            },
            _ => Err(ContractError::UnsupportedCombination),
        },
        RemoteOutcome::Transferred => match payload.executor {
            Step::TransferOut => {
                let info = MessageInfo {
                    sender: payload.sender.clone(),
                    funds: transferred_funds(payload.amount),
                };
                match execute_ic_swap(state, env, &info, None, min_fee) {
                    Ok(r) => Ok(r),
                    Err(_) => Err(ContractError::SwapFailed),
                }
            },
            _ => Err(ContractError::UnsupportedCombination),
        },
    }
}

fn transferred_funds(amount: Option<u128>) -> (funds: Vec<Coin>)
    ensures
        funds.deep_view() == model::transferred_funds(amount),
{
    let mut funds: Vec<Coin> = Vec::new();
    match amount {
        None => {
            assert(funds.deep_view() =~= Seq::empty());
        },
        Some(a) => {
            let coin = Coin { denom: FEE_DENOM.to_owned(), amount: a };
            funds.push(coin);
            assert(funds.deep_view() =~= seq![coin@]);
        },
    }
    funds
}

/// Handles the remote messages of a successful operation whose payload is known: each
/// message, in order, is decoded and resumes the pipeline, and then the success is
/// recorded, once, under the payload's controller port and the sequence number, with the
/// type tags of the messages.
///
/// It fails where decoding or resuming fails for a message, in the way of the first
/// such message, and with `AlreadyResolved` where an outcome is recorded under that port
/// and sequence number already. On failure the state is as before.
pub fn process_response(
    state: &mut State,
    env: &Env,
    payload: &SudoPayload,
    sequence_id: u64,
    items: &Vec<(String, Vec<u8>)>,
    min_fee: &Option<IbcFee>,
) -> (res: Result<Response, ContractError>)
    requires
        old(state).wf(),
    ensures
        final(state).wf(),
        model::agrees(
            res,
            old(state)@,
            final(state)@,
            model::processed(
                old(state)@,
                env.contract_address@,
                payload@,
                sequence_id,
                items.deep_view(),
                min_fee.deep_view(),
            ),
        ),
        old(state)@.acks.contains_key((payload.port_id@, sequence_id)) ==> res is Err,
{
    let ghost before = state@;
    let ghost contract = env.contract_address@;
    let ghost fee = min_fee.deep_view();
    let ghost all = items.deep_view();
    let saved_staged = state.staged.replicate();
    let saved_ledger = state.ledger.duplicate();
    let mut response = Response::new();
    let mut tags: Vec<String> = Vec::new();
    let mut i: usize = 0;
    proof {
        assert(all.take(0) =~= Seq::empty());
        assert(tags.deep_view() =~= model::tags_of(all.take(0)));
    }
    while i < items.len()
        invariant
            i <= items@.len(),
            all == items.deep_view(),
            before == old(state)@,
            contract == env.contract_address@,
            fee == min_fee.deep_view(),
            state.wf(),
            saved_ledger.wf(),
            saved_ledger@ == before.ledger,
            saved_staged.deep_view() == before.staged,
            state@.accounts == before.accounts,
            state@.payloads == before.payloads,
            state@.acks == before.acks,
            state@.errors == before.errors,
            model::resumed_all(before, contract, payload@, all.take(i as int), fee) == Ok::<
                (crate::state::StateView, crate::response::ResponseView),
                ContractError,
            >((state@, response@)),
            tags.deep_view() == model::tags_of(all.take(i as int)),
        decreases items@.len() - i,
    {
        let ghost current = state@;
        proof {
            let next = all.take(i + 1);
            assert(next.drop_last() =~= all.take(i as int));
            assert(next.last() == items@[i as int].deep_view());
            assert(items@[i as int].deep_view().1 =~= items@[i as int].1@);
        }
        let step_result = match decode_outcome(&items[i].0, &items[i].1, payload.executor) {
            Err(e) => Err(e),
            Ok(outcome) => {
                proof {
                    model::lemma_resumed_frame(current, contract, payload@, outcome@, fee);
                }
                resume(state, env, payload, &outcome, min_fee)
            },
        };
        match step_result {
            Err(e) => {
                proof {
                    model::lemma_resumed_all_failure(before, contract, payload@, all, i + 1, fee);
                }
                state.staged = saved_staged;
                state.ledger = saved_ledger;
                return Err(e);
            },
            Ok(r) => {
                let ghost earlier_tags = tags.deep_view();
                response = response.followed_by(r);
                tags.push(items[i].0.clone());
                proof {
                    assert(tags.deep_view() =~= earlier_tags.push(items@[i as int].0@));
                    assert(tags.deep_view() =~= model::tags_of(all.take(i + 1)));
                }
            },
        }
        i += 1;
    }
    proof {
        assert(all.take(i as int) =~= all);
    }
    match state.record(payload.port_id.clone(), sequence_id, AcknowledgementResult::Success(tags)) {
        Err(e) => {
            state.staged = saved_staged;
            state.ledger = saved_ledger;
            Err(e)
        },
        Ok(_) => Ok(response),
    }
}

/// Handles a success notification. Where the ticket has no payload, a note goes to the
/// errors queue and the response is empty. Otherwise the remote result is decoded, each
/// of its messages resumes the pipeline, and the success is recorded once.
///
/// It fails with `SequenceMissing` or `ChannelMissing` where the notification lacks the
/// one or the other, with `MalformedAcknowledgement` where the remote result cannot be
/// decoded, and as `process_response` does. On failure the state is as before.
pub fn sudo_response(
    state: &mut State,
    env: &Env,
    request: &RequestPacket,
    data: &Vec<u8>,
    min_fee: &Option<IbcFee>,
) -> (res: Result<Response, ContractError>)
    requires
        old(state).wf(),
    ensures
        final(state).wf(),
        model::agrees(
            res,
            old(state)@,
            final(state)@,
            model::response(
                old(state)@,
                env.contract_address@,
                request.sequence,
                request.source_channel.deep_view(),
                data@,
                min_fee.deep_view(),
            ),
        ),
{
    let seq_id = match request.sequence {
        None => {
            return Err(ContractError::SequenceMissing);
        },
        Some(s) => s,
    };
    let channel_id = match &request.source_channel {
        None => {
            return Err(ContractError::ChannelMissing);
        },
        Some(c) => c,
    };
    match state.consume(channel_id, seq_id) {
        None => Ok(note_missing_payload(state)),
        Some(payload) => match wire::decode_acknowledgement(data) {
            Err(_) => Err(ContractError::MalformedAcknowledgement),
            Ok(items) => process_response(state, env, &payload, seq_id, &items, min_fee),
        },
    }
}

fn note_missing_payload(state: &mut State) -> (r: Response)
    ensures
        final(state)@ == old(state)@.noting(MISSING_PAYLOAD_NOTE@),
        old(state).wf() ==> final(state).wf(),
        r@ == crate::response::ResponseView::empty(),
{
    state.push_error(MISSING_PAYLOAD_NOTE.to_owned());
    Response::new()
}

/// Handles an error notification. Where the ticket has a payload, the error is recorded,
/// once, under the payload's controller port and the sequence number, with the payload's
/// label and the details. Where it has none, a note goes to the errors queue. The
/// response is empty either way.
///
/// It fails with `SequenceMissing` or `ChannelMissing` where the notification lacks the
/// one or the other, and with `AlreadyResolved` where an outcome is recorded already. On
/// failure the state is as before.
pub fn sudo_error(state: &mut State, request: &RequestPacket, details: String) -> (res: Result<
    Response,
    ContractError,
>)
    requires
        old(state).wf(),
    ensures
        final(state).wf(),
        model::agrees(
            res,
            old(state)@,
            final(state)@,
            model::error(
                old(state)@,
                request.sequence,
                request.source_channel.deep_view(),
                details@,
            ),
        ),
{
    let seq_id = match request.sequence {
        None => {
            return Err(ContractError::SequenceMissing);
        },
        Some(s) => s,
    };
    let channel_id = match &request.source_channel {
        None => {
            return Err(ContractError::ChannelMissing);
        },
        Some(c) => c,
    };
    match state.consume(channel_id, seq_id) {
        None => Ok(note_missing_payload(state)),
        Some(payload) => match state.record(
            payload.port_id,
            seq_id,
            AcknowledgementResult::Error((payload.message, details)),
        ) {
            Err(e) => Err(e),
            Ok(_) => Ok(Response::new()),
        },
    }
}

/// Handles a timeout notification. Where the ticket has a payload, the timeout is
/// recorded, once, under the payload's controller port and the sequence number, with the
/// payload's label. Where it has none, a note goes to the errors queue. The response is
/// empty either way.
///
/// It fails with `SequenceMissing` or `ChannelMissing` where the notification lacks the
/// one or the other, and with `AlreadyResolved` where an outcome is recorded already. On
/// failure the state is as before.
pub fn sudo_timeout(state: &mut State, request: &RequestPacket) -> (res: Result<
    Response,
    ContractError,
>)
    requires
        old(state).wf(),
    ensures
        final(state).wf(),
        model::agrees(
            res,
            old(state)@,
            final(state)@,
            model::timeout(old(state)@, request.sequence, request.source_channel.deep_view()),
        ),
{
    let seq_id = match request.sequence {
        None => {
            return Err(ContractError::SequenceMissing);
        },
        Some(s) => s,
    };
    let channel_id = match &request.source_channel {
        None => {
            return Err(ContractError::ChannelMissing);
        },
        Some(c) => c,
    };
    match state.consume(channel_id, seq_id) {
        None => Ok(note_missing_payload(state)),
        Some(payload) => match state.record(
            payload.port_id,
            seq_id,
            AcknowledgementResult::Timeout(payload.message),
        ) {
            Err(e) => Err(e),
            Ok(_) => Ok(Response::new()),
        },
    }
}

/// The remote account that a confirmation document names: its address, reached over the
/// controller's connection.
pub open spec fn confirmed_account(version: Option<OpenAckVersion>) -> Option<
    crate::types::RemoteAccountView,
> {
    match version {
        None => None,
        Some(v) => Some(
            crate::types::RemoteAccountView {
                address: v.address@,
                connection_id: v.controller_connection_id@,
            },
        ),
    }
}

/// Handles the confirmation of a remote account's creation: the account that the
/// confirmation document names is recorded under the port.
///
/// It fails with `MalformedConfirmation`, and changes nothing, where the document could
/// not be read.
pub fn sudo_open_ack(
    state: &mut State,
    port_id: String,
    counterparty_version: Option<OpenAckVersion>,
) -> (res: Result<Response, ContractError>)
    requires
        old(state).wf(),
    ensures
        final(state).wf(),
        model::agrees(
            res,
            old(state)@,
            final(state)@,
            model::open_ack(old(state)@, port_id@, confirmed_account(counterparty_version)),
        ),
{
    match counterparty_version {
        None => Err(ContractError::MalformedConfirmation),
        Some(v) => {
            state.confirm(
                port_id,
                RemoteAccount { address: v.address, connection_id: v.controller_connection_id },
            );
            Ok(Response::new())
        },
    }
}

/// Whether a dispatch failed, as the transport reports it.
pub open spec fn dispatch_failed(result: SubMsgResult) -> bool {
    result is Failure
}

/// The data that came back from a dispatch, if any.
pub open spec fn dispatch_data(result: SubMsgResult) -> Option<Seq<u8>> {
    match result {
        SubMsgResult::Success { data: Some(bytes) } => Some(bytes@),
        _ => None,
    }
}

/// Handles the confirmation of a dispatch: the ticket is read out of the confirmation,
/// and the staged payload moves to the payload store under it.
///
/// It fails with `NothingStaged` where the staging slot is empty, with `DispatchFailed`
/// where the transport reports a failure, with `NoResult` where the confirmation carries
/// no data, and with `MalformedTicket` where the data cannot be read. On failure the
/// state is as before.
pub fn prepare_sudo_payload(state: &mut State, msg: &Reply) -> (res: Result<
    Response,
    ContractError,
>)
    requires
        old(state).wf(),
    ensures
        final(state).wf(),
        model::agrees(
            res,
            old(state)@,
            final(state)@,
            model::sudo_payload_prepared(
                old(state)@,
                dispatch_failed(msg.result),
                dispatch_data(msg.result),
            ),
        ),
{
    if state.staged.is_none() {
        return Err(ContractError::NothingStaged);
    }
    let data = match &msg.result {
        SubMsgResult::Failure(_) => {
            return Err(ContractError::DispatchFailed);
        },
        SubMsgResult::Success { data } => match data {
            None => {
                return Err(ContractError::NoResult);
            },
            Some(bytes) => bytes,
        },
    };
    match wire::parse_submit_tx_response(data) {
        Err(_) => Err(ContractError::MalformedTicket),
        Ok(ticket) => match state.promote(ticket.1, ticket.0) {
            Err(e) => Err(e),
            Ok(_) => Ok(Response::new()),
        },
    }
}

/// Handles the confirmation of a dispatch by its handle.
///
/// It fails with `UnsupportedReplyId` where the handle is not the one that the pipeline
/// attaches, and as `prepare_sudo_payload` does.
pub fn reply(state: &mut State, msg: &Reply) -> (res: Result<Response, ContractError>)
    requires
        old(state).wf(),
    ensures
        final(state).wf(),
        model::agrees(
            res,
            old(state)@,
            final(state)@,
            model::replied(
                old(state)@,
                msg.id,
                dispatch_failed(msg.result),
                dispatch_data(msg.result),
            ),
        ),
{
    if msg.id == crate::constants::SUDO_PAYLOAD_REPLY_ID {
        prepare_sudo_payload(state, msg)
    } else {
        Err(ContractError::UnsupportedReplyId)
    }
}

/// What a notification of the transport leads to.
pub open spec fn sudo_model(
    s: crate::state::StateView,
    contract: Seq<char>,
    msg: SudoMsg,
    fee: Option<crate::types::IbcFeeView>,
) -> model::Outcome {
    match msg {
        SudoMsg::Response { request, data } => model::response(
            s,
            contract,
            request.sequence,
            request.source_channel.deep_view(),
            data@,
            fee,
        ),
        SudoMsg::Error { request, details } => model::error(
            s,
            request.sequence,
            request.source_channel.deep_view(),
            details@,
        ),
        SudoMsg::Timeout { request } => model::timeout(
            s,
            request.sequence,
            request.source_channel.deep_view(),
        ),
        SudoMsg::OpenAck {
            port_id,
            channel_id,
            counterparty_channel_id,
            counterparty_version,
        } => model::open_ack(s, port_id@, confirmed_account(counterparty_version)),
        SudoMsg::Other => Ok((s, crate::response::ResponseView::empty())),
    }
}

/// Handles a notification of the transport: a success, an error, a timeout, or the
/// confirmation of a remote account's creation. Any other notification changes nothing
/// and is answered with an empty response.
pub fn sudo(state: &mut State, env: &Env, msg: SudoMsg, min_fee: &Option<IbcFee>) -> (res: Result<
    Response,
    ContractError,
>)
    requires
        old(state).wf(),
    ensures
        final(state).wf(),
        model::agrees(
            res,
            old(state)@,
            final(state)@,
            sudo_model(old(state)@, env.contract_address@, msg, min_fee.deep_view()),
        ),
{
    match msg {
        SudoMsg::Response { request, data } => sudo_response(state, env, &request, &data, min_fee),
        SudoMsg::Error { request, details } => sudo_error(state, &request, details),
        SudoMsg::Timeout { request } => sudo_timeout(state, &request),
        SudoMsg::OpenAck {
            port_id,
            channel_id,
            counterparty_channel_id,
            counterparty_version,
        } => sudo_open_ack(state, port_id, counterparty_version),
        SudoMsg::Other => Ok(Response::new()),
    }
}

/// What a request of a caller leads to.
pub open spec fn execute_model(
    s: crate::state::StateView,
    contract: Seq<char>,
    sender: Seq<char>,
    funds: Seq<crate::types::CoinView>,
    msg: ExecuteMsg,
    fee: Option<crate::types::IbcFeeView>,
) -> model::Outcome {
    match msg {
        ExecuteMsg::Register { connection_id, interchain_account_id } => model::register_ica(
            s,
            contract,
            connection_id@,
            interchain_account_id@,
        ),
        ExecuteMsg::Fund {  } => model::fund(s, contract, sender, funds, fee),
    }
}

/// Handles a request of a caller: the registration of a remote account, or a deposit.
pub fn execute(
    state: &mut State,
    env: &Env,
    info: &MessageInfo,
    msg: ExecuteMsg,
    min_fee: &Option<IbcFee>,
) -> (res: Result<Response, ContractError>)
    requires
        old(state).wf(),
    ensures
        final(state).wf(),
        model::agrees(
            res,
            old(state)@,
            final(state)@,
            execute_model(
                old(state)@,
                env.contract_address@,
                info.sender@,
                info.funds.deep_view(),
                msg,
                min_fee.deep_view(),
            ),
        ),
{
    match msg {
        ExecuteMsg::Register { connection_id, interchain_account_id } => execute_register_ica(
            state,
            env,
            connection_id,
            interchain_account_id,
        ),
        ExecuteMsg::Fund {  } => execute_fund(state, env, info, min_fee),
    }
}

/// The state of a contract that has just been set up: nothing is registered, staged,
/// stored, recorded or noted, the ledger is empty, and no minting principal is
/// configured. The response is empty.
pub fn instantiate() -> (r: (State, Response))
    ensures
        r.0.wf(),
        r.0@ == (crate::state::StateView {
            accounts: Map::empty(),
            staged: None,
            payloads: Map::empty(),
            acks: Map::empty(),
            errors: Seq::empty(),
            ledger: crate::ledger::LedgerView {
                total_supply: 0,
                total_pool_value: 0,
                balances: Map::empty(),
                mint: None,
            },
        }),
        r.1@ == crate::response::ResponseView::empty(),
{
    (State::new(None), Response::new())
}

/// A migration changes nothing: the response is empty.
pub fn migrate() -> (r: Response)
    ensures
        r@ == crate::response::ResponseView::empty(),
{
    Response::new()
}

/// The question to put to the transport about the address of the contract's remote
/// account with the given label, over the given connection.
pub fn query_interchain_address(env: &Env, interchain_account_id: String, connection_id: String) -> (q:
    AddressQuery)
    ensures
        q.owner_address@ == env.contract_address@,
        q.interchain_account_id@ == interchain_account_id@,
        q.connection_id@ == connection_id@,
{
    AddressQuery {
        owner_address: env.contract_address.clone(),
        interchain_account_id,
        connection_id,
    }
}

/// The address and the connection of the remote account with the given label, as the
/// registry holds them. It fails with `AccountNotFound` where the label was never
/// registered, and with `AccountNotReady` where the account's creation is not confirmed.
pub fn query_interchain_address_contract(
    state: &State,
    env: &Env,
    interchain_account_id: String,
) -> (res: Result<(String, String), ContractError>)
    requires
        state.wf(),
    ensures
        match res {
            Ok(found) => state@.resolve(
                model::controller_port(env.contract_address@, interchain_account_id@),
            ) == Ok::<crate::types::RemoteAccountView, ContractError>(
                crate::types::RemoteAccountView { address: found.0@, connection_id: found.1@ },
            ),
            Err(e) => state@.resolve(
                model::controller_port(env.contract_address@, interchain_account_id@),
            ) == Err::<crate::types::RemoteAccountView, ContractError>(e),
        },
{
    get_ica(state, env, interchain_account_id.as_str())
}

/// The outcome recorded for the dispatch with the given sequence number through the
/// remote account with the given label, if one is recorded.
pub fn query_acknowledgement_result(
    state: &State,
    env: &Env,
    interchain_account_id: String,
    sequence_id: u64,
) -> (r: Option<AcknowledgementResult>)
    requires
        state.wf(),
    ensures
        r.deep_view() == recorded_outcome(
            state@,
            model::controller_port(env.contract_address@, interchain_account_id@),
            sequence_id,
        ),
{
    let port = wire::port_id(env.contract_address.as_str(), interchain_account_id.as_str());
    state.outcome(&port, sequence_id)
}

/// The outcome recorded under a controller port and a sequence number, if there is one.
pub open spec fn recorded_outcome(s: crate::state::StateView, port: Seq<char>, sequence_id: u64) -> Option<
    crate::types::AcknowledgementView,
> {
    if s.acks.contains_key((port, sequence_id)) {
        Some(s.acks[(port, sequence_id)])
    } else {
        None
    }
}

/// The notes in the errors queue, oldest first.
pub fn query_errors_queue(state: &State) -> (r: Vec<String>)
    ensures
        r.deep_view() == state@.errors,
{
    state.errors.replicate()
}

/// The shares issued and the value pooled.
pub fn query_supply(state: &State) -> (r: (u128, u128))
    ensures
        r.0 == state@.ledger.total_supply,
        r.1 == state@.ledger.total_pool_value,
{
    (state.ledger.total_supply(), state.ledger.total_pool_value())
}

/// The shares of a holder. It fails with `BalanceNotFound` where the holder has no
/// record.
pub fn query_balance(state: &State, addr: String) -> (res: Result<u128, ContractError>)
    requires
        state.wf(),
    ensures
        match res {
            Ok(b) => state@.ledger.balances.contains_key(addr@) && state@.ledger.balances[addr@]
                == b,
            Err(e) => e == ContractError::BalanceNotFound && !state@.ledger.balances.contains_key(
                addr@,
            ),
        },
{
    match state.ledger.balance(&addr) {
        Some(b) => Ok(b),
        None => Err(ContractError::BalanceNotFound),
    }
}

/// Whether an answer is the right one to a query on the given state.
pub open spec fn answers(
    s: crate::state::StateView,
    contract: Seq<char>,
    msg: QueryMsg,
    res: Result<QueryResponse, ContractError>,
) -> bool {
    match msg {
        QueryMsg::InterchainAccountAddress { interchain_account_id, connection_id } => {
            &&& res matches Ok(QueryResponse::AskTransport(q))
            &&& q.owner_address@ == contract
            &&& q.interchain_account_id@ == interchain_account_id@
            &&& q.connection_id@ == connection_id@
        },
        QueryMsg::InterchainAccountAddressFromContract { interchain_account_id } => match s.resolve(
            model::controller_port(contract, interchain_account_id@),
        ) {
            Ok(account) => {
                &&& res matches Ok(QueryResponse::Account(found))
                &&& found.0@ == account.address
                &&& found.1@ == account.connection_id
            },
            Err(e) => res matches Err(err) && err == e,
        },
        QueryMsg::AcknowledgementResult { interchain_account_id, sequence_id } => {
            &&& res matches Ok(QueryResponse::Acknowledgement(found))
            &&& found.deep_view() == recorded_outcome(
                s,
                model::controller_port(contract, interchain_account_id@),
                sequence_id,
            )
        },
        QueryMsg::ErrorsQueue {  } => {
            &&& res matches Ok(QueryResponse::Errors(notes))
            &&& notes.deep_view() == s.errors
        },
        QueryMsg::Supply {  } => {
            &&& res matches Ok(QueryResponse::Supply(totals))
            &&& totals.0 == s.ledger.total_supply
            &&& totals.1 == s.ledger.total_pool_value
        },
        QueryMsg::Balance { addr } => if s.ledger.balances.contains_key(addr@) {
            res matches Ok(QueryResponse::Balance(b)) && b == s.ledger.balances[addr@]
        } else {
            res matches Err(err) && err == ContractError::BalanceNotFound
        },
    }
}

/// Answers a query. The state is left as it is.
pub fn query(state: &State, env: &Env, msg: QueryMsg) -> (res: Result<QueryResponse, ContractError>)
    requires
        state.wf(),
    ensures
        answers(state@, env.contract_address@, msg, res),
{
    match msg {
        QueryMsg::InterchainAccountAddress {
            interchain_account_id,
            connection_id,
        } => Ok(
            QueryResponse::AskTransport(
                query_interchain_address(env, interchain_account_id, connection_id),
            ),
        ),
        QueryMsg::InterchainAccountAddressFromContract {
            interchain_account_id,
        } => match query_interchain_address_contract(state, env, interchain_account_id) {
            Ok(found) => Ok(QueryResponse::Account(found)),
            Err(e) => Err(e),
        },
        QueryMsg::AcknowledgementResult { interchain_account_id, sequence_id } => Ok(
            QueryResponse::Acknowledgement(
                query_acknowledgement_result(state, env, interchain_account_id, sequence_id),
            ),
        ),
        QueryMsg::ErrorsQueue {  } => Ok(QueryResponse::Errors(query_errors_queue(state))),
        QueryMsg::Supply {  } => Ok(QueryResponse::Supply(query_supply(state))),
        QueryMsg::Balance { addr } => match query_balance(state, addr) {
            Ok(b) => Ok(QueryResponse::Balance(b)),
            Err(e) => Err(e),
        },
    }
}

} // verus!
