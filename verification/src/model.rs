//! What each step of the pipeline does, stated over the models of the state, of the
//! request and of the response.

use crate::constants::{
    DEFAULT_TIMEOUT_SECONDS, DEPOSIT_REQUEST, EXECUTE_TYPE_URL, FEE_DENOM, MIN_OUT_PERCENT,
    MISSING_PAYLOAD_NOTE, OSMOSIS_IC_ACCOUNT_ID, PAYLOAD_LABEL, REDBANK_OSMOSIS_ADDR, SETTLEMENT_DENOM,
    SUDO_PAYLOAD_REPLY_ID, SWAP_FEE, SWAP_TYPE_URL, TRANSFER_BACK_CHANNEL, TRANSFER_OUT_CHANNEL,
    TRANSFER_PORT, TRANSFER_TYPE_URL, WITHDRAW_REQUEST,
};
use crate::decimal::{decimal_text, parse_amount};
use crate::error::ContractError;
use crate::response::{MsgView, ProtobufAnyView, ResponseView, SubMsgView};
use crate::state::StateView;
use crate::types::{
    AcknowledgementView, CoinView, IbcFeeView, RemoteAccountView, Step, SudoPayloadView,
};
use crate::wire::{
    acknowledgement_items, execute_response_data, execute_wire, submit_tx_ticket,
    swap_response_amount, swap_wire, transfer_response_accepted, transfer_wire,
};
use vstd::prelude::*;

verus! {

/// What a step makes of the state and hands back, or why it fails.
pub type Outcome = Result<(StateView, ResponseView), ContractError>;

/// Whether a fee is paid in the fee denomination.
pub open spec fn in_fee_denom(coin: CoinView) -> bool {
    coin.denom == FEE_DENOM@
}

/// The coins of a list that are paid in the fee denomination, in the order given.
pub open spec fn fee_denom_only(coins: Seq<CoinView>) -> Seq<CoinView> {
    coins.filter(|c: CoinView| in_fee_denom(c))
}

/// The fee to attach to a dispatch: of the acknowledgement and timeout fees only what is
/// paid in the fee denomination.
pub open spec fn min_fee(fee: IbcFeeView) -> IbcFeeView {
    IbcFeeView {
        recv_fee: fee.recv_fee,
        ack_fee: fee_denom_only(fee.ack_fee),
        timeout_fee: fee_denom_only(fee.timeout_fee),
    }
}

/// Whether what a step returned and left behind is what it was to do: on success the
/// new state and the response, on failure the error and the state unchanged.
pub open spec fn agrees(
    res: Result<crate::response::Response, ContractError>,
    before: StateView,
    after: StateView,
    expected: Outcome,
) -> bool {
    match res {
        Ok(r) => expected == Ok::<(StateView, ResponseView), ContractError>((after, r@)),
        Err(e) => expected == Err::<(StateView, ResponseView), ContractError>(e) && after
            == before,
    }
}

/// The controller port of a remote account: the key under which it is registered.
pub open spec fn controller_port(contract: Seq<char>, account_id: Seq<char>) -> Seq<char> {
    "icacontroller-"@ + contract + "."@ + account_id
}

/// The controller port of the remote account that the pipeline works through.
pub open spec fn pipeline_port(contract: Seq<char>) -> Seq<char> {
    controller_port(contract, OSMOSIS_IC_ACCOUNT_ID@)
}

/// The payload that a step of the pipeline stages.
pub open spec fn pipeline_payload(
    contract: Seq<char>,
    sender: Seq<char>,
    step: Step,
    amount: Option<u128>,
) -> SudoPayloadView {
    SudoPayloadView {
        port_id: pipeline_port(contract),
        message: PAYLOAD_LABEL@,
        sender,
        executor: step,
        amount,
    }
}

/// The dispatch of one remote operation through the pipeline's remote account, with a
/// confirmation asked for.
pub open spec fn submit_tx(
    connection_id: Seq<char>,
    type_url: Seq<char>,
    bytes: Seq<u8>,
    timeout: u64,
    fee: IbcFeeView,
) -> SubMsgView {
    SubMsgView {
        id: SUDO_PAYLOAD_REPLY_ID,
        msg: MsgView::SubmitTx {
            connection_id,
            interchain_account_id: OSMOSIS_IC_ACCOUNT_ID@,
            msgs: seq![ProtobufAnyView { type_url, value: bytes }],
            memo: Seq::empty(),
            timeout,
            fee,
        },
        reply_on_success: true,
    }
}

/// The remote account that a dispatch goes through, or why there is none: the minimum
/// fee must be known, and the account registered and confirmed.
pub open spec fn prepared(s: StateView, contract: Seq<char>, fee: Option<IbcFeeView>) -> Result<
    RemoteAccountView,
    ContractError,
> {
    if fee is None {
        Err(ContractError::FeeUnavailable)
    } else {
        s.resolve(pipeline_port(contract))
    }
}

/// What a dispatching step does once it has its remote account: where the operation has
/// a wire form, the payload is staged and the operation handed back for dispatch, with
/// the fee to attach.
pub open spec fn dispatched(
    s: StateView,
    account: RemoteAccountView,
    fee: IbcFeeView,
    wire: Option<Seq<u8>>,
    type_url: Seq<char>,
    timeout: u64,
    payload: SudoPayloadView,
) -> Outcome {
    match wire {
        None => Err(ContractError::EncodeFailed),
        Some(bytes) => Ok(
            (
                s.staging(payload),
                ResponseView::of(
                    submit_tx(account.connection_id, type_url, bytes, timeout, fee),
                ),
            ),
        ),
    }
}

/// The fund step, which opens a deposit: the first of the attached funds is sent to the remote account, and the
/// payload records the caller and the amount.
pub open spec fn fund(
    s: StateView,
    contract: Seq<char>,
    sender: Seq<char>,
    funds: Seq<CoinView>,
    fee: Option<IbcFeeView>,
) -> Outcome {
    if funds.len() == 0 {
        Err(ContractError::NoFunds)
    } else {
        match prepared(s, contract, fee) {
            Err(e) => Err(e),
            Ok(account) => dispatched(
                s,
                account,
                min_fee(fee->0),
                transfer_wire(
                    TRANSFER_PORT@,
                    TRANSFER_OUT_CHANNEL@,
                    funds[0].denom,
                    decimal_text(funds[0].amount as nat),
                    contract,
                    account.address,
                    None,
                    0,
                ),
                TRANSFER_TYPE_URL@,
                DEFAULT_TIMEOUT_SECONDS,
                pipeline_payload(contract, sender, Step::TransferOut, Some(funds[0].amount)),
            ),
        }
    }
}

/// The least output that a swap of `amount` accepts: 95 for every full hundred.
pub open spec fn min_out(amount: u128) -> u128 {
    (amount / 100 * MIN_OUT_PERCENT) as u128
}

/// The swap step, which follows the transfer out: the first of the given funds is swapped into the settlement asset on
/// the remote chain, with the minimum-output guard.
pub open spec fn swap(
    s: StateView,
    contract: Seq<char>,
    sender: Seq<char>,
    funds: Seq<CoinView>,
    timeout: Option<u64>,
    fee: Option<IbcFeeView>,
) -> Outcome {
    if funds.len() == 0 {
        Err(ContractError::NoFunds)
    } else {
        match prepared(s, contract, fee) {
            Err(e) => Err(e),
            Ok(account) => dispatched(
                s,
                account,
                min_fee(fee->0),
                swap_wire(
                    account.address,
                    funds[0].denom,
                    decimal_text(funds[0].amount as nat),
                    SETTLEMENT_DENOM@,
                    decimal_text(min_out(funds[0].amount) as nat),
                    SWAP_FEE@,
                ),
                SWAP_TYPE_URL@,
                match timeout {
                    Some(t) => t,
                    None => DEFAULT_TIMEOUT_SECONDS,
                },
                pipeline_payload(contract, sender, Step::Swap, None),
            ),
        }
    }
}

/// The funds of a call of the yield pool: the settlement asset, in the given amount.
pub open spec fn pool_funds(amount: u128) -> Seq<(Seq<char>, Seq<char>)> {
    seq![(SETTLEMENT_DENOM@, decimal_text(amount as nat))]
}

/// The deposit step, which follows the swap: `value` of the settlement asset goes into the yield pool.
pub open spec fn deploy(
    s: StateView,
    contract: Seq<char>,
    sender: Seq<char>,
    value: u128,
    fee: Option<IbcFeeView>,
) -> Outcome {
    match prepared(s, contract, fee) {
        Err(e) => Err(e),
        Ok(account) => dispatched(
            s,
            account,
            min_fee(fee->0),
            execute_wire(account.address, REDBANK_OSMOSIS_ADDR@, DEPOSIT_REQUEST@, pool_funds(value)),
            EXECUTE_TYPE_URL@,
            DEFAULT_TIMEOUT_SECONDS,
            pipeline_payload(contract, sender, Step::Deposit, Some(value)),
        ),
    }
}

/// The issue step, which closes a deposit: the pool grows by `value`, and the contract mints to `sender`
/// what the value is worth at the rate before.
pub open spec fn tokens_to_user(s: StateView, contract: Seq<char>, sender: Seq<char>, value: u128) -> Outcome {
    match s.ledger.issued(contract, sender, value) {
        Err(e) => Err(e),
        Ok(ledger) => Ok((StateView { ledger, ..s }, ResponseView::empty())),
    }
}

/// The claim step, which opens a redemption: a holder who owns at least `amount` shares has what they are worth
/// withdrawn from the yield pool. The payload records the shares claimed; the balance is
/// left as it is until the funds are released.
pub open spec fn claim(
    s: StateView,
    contract: Seq<char>,
    sender: Seq<char>,
    amount: u128,
    fee: Option<IbcFeeView>,
) -> Outcome {
    if s.ledger.balance_of(sender) < amount {
        Err(ContractError::InsufficientBalance)
    } else if s.ledger.shares_for(amount) > u128::MAX {
        Err(ContractError::Overflow)
    } else {
        match prepared(s, contract, fee) {
            Err(e) => Err(e),
            Ok(account) => dispatched(
                s,
                account,
                min_fee(fee->0),
                execute_wire(
                    account.address,
                    REDBANK_OSMOSIS_ADDR@,
                    WITHDRAW_REQUEST@,
                    pool_funds(s.ledger.shares_for(amount) as u128),
                ),
                EXECUTE_TYPE_URL@,
                DEFAULT_TIMEOUT_SECONDS,
                pipeline_payload(contract, sender, Step::Withdraw, Some(amount)),
            ),
        }
    }
}

/// The transfer back, which follows the withdrawal: `amount` of the settlement asset comes back from the remote
/// account to the contract.
pub open spec fn return_funds(
    s: StateView,
    contract: Seq<char>,
    sender: Seq<char>,
    amount: u128,
    fee: Option<IbcFeeView>,
) -> Outcome {
    match prepared(s, contract, fee) {
        Err(e) => Err(e),
        Ok(account) => dispatched(
            s,
            account,
            min_fee(fee->0),
            transfer_wire(
                TRANSFER_PORT@,
                TRANSFER_BACK_CHANNEL@,
                SETTLEMENT_DENOM@,
                decimal_text(amount as nat),
                account.address,
                contract,
                None,
                0,
            ),
            TRANSFER_TYPE_URL@,
            DEFAULT_TIMEOUT_SECONDS,
            pipeline_payload(contract, sender, Step::TransferBack, Some(amount)),
        ),
    }
}

/// The payment of `amount` of the settlement asset to a holder.
pub open spec fn payout(holder: Seq<char>, amount: u128) -> SubMsgView {
    crate::response::plain_message(
        MsgView::BankSend {
            to_address: holder,
            amount: seq![CoinView { denom: SETTLEMENT_DENOM@, amount }],
        },
    )
}

/// The release step, which closes a redemption: the holder's balance is debited by `amount`, and the same amount of
/// the settlement asset is paid to the holder.
pub open spec fn return_funds_user(s: StateView, sender: Seq<char>, amount: u128) -> Outcome {
    match s.ledger.debited(sender, amount) {
        Err(e) => Err(e),
        Ok(ledger) => Ok((StateView { ledger, ..s }, ResponseView::of(payout(sender, amount)))),
    }
}

/// Minting by a caller: the ledger mints, and the response logs what was minted.
pub open spec fn mint(s: StateView, sender: Seq<char>, recipient: Seq<char>, amount: u128) -> Outcome {
    match s.ledger.minted(sender, recipient, amount) {
        Err(e) => Err(e),
        Ok(ledger) => Ok(
            (
                StateView { ledger, ..s },
                ResponseView {
                    messages: Seq::empty(),
                    attributes: seq![
                        ("action"@, "mint"@),
                        ("to"@, recipient),
                        ("amount"@, decimal_text(amount as nat)),
                    ],
                },
            ),
        ),
    }
}

/// Registration of a remote account: the key is registered without an account, and the
/// transport is asked to create one.
pub open spec fn register_ica(
    s: StateView,
    contract: Seq<char>,
    connection_id: Seq<char>,
    interchain_account_id: Seq<char>,
) -> Outcome {
    Ok(
        (
            StateView {
                accounts: s.accounts.insert(controller_port(contract, interchain_account_id), None),
                ..s
            },
            ResponseView::of(
                crate::response::plain_message(
                    MsgView::RegisterInterchainAccount { connection_id, interchain_account_id },
                ),
            ),
        ),
    )
}

/// The decoded result of one remote message.
pub enum RemoteOutcomeView {
    /// A swap came out with this amount text.
    Swapped { token_out_amount: Seq<char> },
    /// A call of a remote contract returned this data.
    Executed { data: Seq<u8> },
    /// A cross-chain transfer went through.
    Transferred,
}

/// The decoded result of a remote message with the given type tag and bytes, for a
/// payload of the given step; or why it cannot be had. A swap's result is decoded
/// whatever the step; a contract call's and a transfer's only for the steps that
/// dispatch them.
pub open spec fn outcome_of(tag: Seq<char>, data: Seq<u8>, step: Step) -> Result<
    RemoteOutcomeView,
    ContractError,
> {
    if tag == SWAP_TYPE_URL@ {
        match swap_response_amount(data) {
            None => Err(ContractError::MalformedMessage),
            Some(text) => Ok(RemoteOutcomeView::Swapped { token_out_amount: text }),
        }
    } else if tag == EXECUTE_TYPE_URL@ {
        if step == Step::TransferOut || step == Step::Swap {
            Err(ContractError::UnsupportedCombination)
        } else {
            match execute_response_data(data) {
                None => Err(ContractError::MalformedMessage),
                Some(inner) => Ok(RemoteOutcomeView::Executed { data: inner }),
            }
        }
    } else if tag == TRANSFER_TYPE_URL@ {
        if step != Step::TransferOut {
            Err(ContractError::UnsupportedCombination)
        } else if transfer_response_accepted(data) {
            Ok(RemoteOutcomeView::Transferred)
        } else {
            Err(ContractError::MalformedMessage)
        }
    } else {
        Err(ContractError::UnknownMessageType)
    }
}

/// What a step did, with every failure reported as the given one.
pub open spec fn failing_as(outcome: Outcome, error: ContractError) -> Outcome {
    match outcome {
        Ok(done) => Ok(done),
        Err(_) => Err(error),
    }
}

/// The funds that a swap works on after the transfer out: the amount that the payload
/// records, in the denomination in which deposits arrive.
pub open spec fn transferred_funds(amount: Option<u128>) -> Seq<CoinView> {
    match amount {
        None => Seq::empty(),
        Some(a) => seq![CoinView { denom: FEE_DENOM@, amount: a }],
    }
}

/// The next step of the pipeline, taken when a remote message succeeded: which one is
/// decided by the kind of the result together with the step that the payload records.
///
/// - A swap's result: the deposit of the amount that came out.
/// - A contract call's result, after a deposit: the issue of shares for the payload's
///   amount; after a withdrawal: the transfer back of the payload's amount; after a
///   transfer back: the release of the payload's amount;
///   after an issue of shares: nothing.
/// - A transfer's result, after the transfer out: the swap of the payload's amount.
/// - Any other pair is unsupported.
pub open spec fn resumed(
    s: StateView,
    contract: Seq<char>,
    payload: SudoPayloadView,
    outcome: RemoteOutcomeView,
    fee: Option<IbcFeeView>,
) -> Outcome {
    match outcome {
        RemoteOutcomeView::Swapped { token_out_amount } => match parse_amount(token_out_amount) {
            None => Err(ContractError::MalformedAmount),
            Some(value) => failing_as(
                deploy(s, contract, payload.sender, value, fee),
                ContractError::DeployFailed,
            ),
        },
        RemoteOutcomeView::Executed { data } => match payload.executor {
            Step::Deposit => match payload.amount {
                None => Err(ContractError::IssueFailed),
                Some(amount) => failing_as(
                    tokens_to_user(s, contract, payload.sender, amount),
                    ContractError::IssueFailed,
                ),
            },
            Step::IssueShares => Ok((s, ResponseView::empty())),
            Step::Withdraw => match payload.amount {
                None => Err(ContractError::AmountMissing),
                Some(amount) => failing_as(
                    return_funds(s, contract, payload.sender, amount, fee),
                    ContractError::ReturnFundsFailed,
                ),
            },
            Step::TransferBack => match payload.amount {
                None => Err(ContractError::AmountMissing),
                Some(amount) => failing_as(
                    return_funds_user(s, payload.sender, amount),
                    ContractError::ReleaseFailed,
                ),
            },
            _ => Err(ContractError::UnsupportedCombination),
        },
        RemoteOutcomeView::Transferred => match payload.executor {
            Step::TransferOut => failing_as(
                swap(s, contract, payload.sender, transferred_funds(payload.amount), None, fee),
                ContractError::SwapFailed,
            ),
            _ => Err(ContractError::UnsupportedCombination),
        },
    }
}

/// What one remote message of a successful operation leads to: its result is decoded,
/// and the pipeline resumes.
pub open spec fn resumed_item(
    s: StateView,
    contract: Seq<char>,
    payload: SudoPayloadView,
    item: (Seq<char>, Seq<u8>),
    fee: Option<IbcFeeView>,
) -> Outcome {
    match outcome_of(item.0, item.1, payload.executor) {
        Err(e) => Err(e),
        Ok(outcome) => resumed(s, contract, payload, outcome, fee),
    }
}

/// What the remote messages of a successful operation lead to, taken in order: each
/// works on the state that the one before left, the responses follow each other, and
/// the first failure is the failure of all.
pub open spec fn resumed_all(
    s: StateView,
    contract: Seq<char>,
    payload: SudoPayloadView,
    items: Seq<(Seq<char>, Seq<u8>)>,
    fee: Option<IbcFeeView>,
) -> Outcome
    decreases items.len(),
{
    if items.len() == 0 {
        Ok((s, ResponseView::empty()))
    } else {
        match resumed_all(s, contract, payload, items.drop_last(), fee) {
            Err(e) => Err(e),
            Ok(earlier) => match resumed_item(earlier.0, contract, payload, items.last(), fee) {
                Err(e) => Err(e),
                Ok(last) => Ok((last.0, earlier.1.followed_by(last.1))),
            },
        }
    }
}

/// The type tags of remote messages, in order.
pub open spec fn tags_of(items: Seq<(Seq<char>, Seq<u8>)>) -> Seq<Seq<char>> {
    Seq::new(items.len(), |i: int| items[i].0)
}

/// What a successful operation with a known payload leads to: every remote message
/// resumes the pipeline, and then the success is recorded, once, under the payload's
/// controller port and the sequence number.
pub open spec fn processed(
    s: StateView,
    contract: Seq<char>,
    payload: SudoPayloadView,
    sequence_id: u64,
    items: Seq<(Seq<char>, Seq<u8>)>,
    fee: Option<IbcFeeView>,
) -> Outcome {
    match resumed_all(s, contract, payload, items, fee) {
        Err(e) => Err(e),
        Ok(done) => match done.0.recorded(
            (payload.port_id, sequence_id),
            AcknowledgementView::Success(tags_of(items)),
        ) {
            Err(e) => Err(e),
            Ok(after) => Ok((after, done.1)),
        },
    }
}

/// What a notification does that finds no payload under its ticket: a note goes to the
/// errors queue, and nothing else happens.
pub open spec fn unmatched(s: StateView) -> Outcome {
    Ok((s.noting(MISSING_PAYLOAD_NOTE@), ResponseView::empty()))
}

/// The handling of a success notification.
pub open spec fn response(
    s: StateView,
    contract: Seq<char>,
    sequence: Option<u64>,
    source_channel: Option<Seq<char>>,
    data: Seq<u8>,
    fee: Option<IbcFeeView>,
) -> Outcome {
    if sequence is None {
        Err(ContractError::SequenceMissing)
    } else if source_channel is None {
        Err(ContractError::ChannelMissing)
    } else if !s.payloads.contains_key((source_channel->0, sequence->0)) {
        unmatched(s)
    } else {
        match acknowledgement_items(data) {
            None => Err(ContractError::MalformedAcknowledgement),
            Some(items) => processed(
                s,
                contract,
                s.payloads[(source_channel->0, sequence->0)],
                sequence->0,
                items,
                fee,
            ),
        }
    }
}

/// The handling of a notification that ends a dispatch without success: where the
/// ticket has a payload, the given outcome is recorded, once, under the payload's
/// controller port and the sequence number.
pub open spec fn closed(
    s: StateView,
    sequence: Option<u64>,
    source_channel: Option<Seq<char>>,
    result: spec_fn(SudoPayloadView) -> AcknowledgementView,
) -> Outcome {
    if sequence is None {
        Err(ContractError::SequenceMissing)
    } else if source_channel is None {
        Err(ContractError::ChannelMissing)
    } else if !s.payloads.contains_key((source_channel->0, sequence->0)) {
        unmatched(s)
    } else {
        let payload = s.payloads[(source_channel->0, sequence->0)];
        match s.recorded((payload.port_id, sequence->0), result(payload)) {
            Err(e) => Err(e),
            Ok(after) => Ok((after, ResponseView::empty())),
        }
    }
}

/// The handling of an error notification: the error is recorded with the payload's
/// label and the details.
pub open spec fn error(
    s: StateView,
    sequence: Option<u64>,
    source_channel: Option<Seq<char>>,
    details: Seq<char>,
) -> Outcome {
    closed(
        s,
        sequence,
        source_channel,
        |p: SudoPayloadView| AcknowledgementView::Error((p.message, details)),
    )
}

/// The handling of a timeout notification: the timeout is recorded with the payload's
/// label.
pub open spec fn timeout(s: StateView, sequence: Option<u64>, source_channel: Option<Seq<char>>) -> Outcome {
    closed(s, sequence, source_channel, |p: SudoPayloadView| AcknowledgementView::Timeout(p.message))
}

/// The handling of the confirmation of a remote account's creation: the account's
/// address and the controller's connection are recorded under the port.
pub open spec fn open_ack(
    s: StateView,
    port_id: Seq<char>,
    confirmation: Option<RemoteAccountView>,
) -> Outcome {
    match confirmation {
        None => Err(ContractError::MalformedConfirmation),
        Some(account) => Ok(
            (
                StateView { accounts: s.accounts.insert(port_id, Some(account)), ..s },
                ResponseView::empty(),
            ),
        ),
    }
}

/// The handling of a dispatch confirmation: the staged payload moves to the payload
/// store, under the ticket that the confirmation names.
pub open spec fn sudo_payload_prepared(
    s: StateView,
    dispatch_failed: bool,
    data: Option<Seq<u8>>,
) -> Outcome {
    if s.staged is None {
        Err(ContractError::NothingStaged)
    } else if dispatch_failed {
        Err(ContractError::DispatchFailed)
    } else if data is None {
        Err(ContractError::NoResult)
    } else {
        match submit_tx_ticket(data->0) {
            None => Err(ContractError::MalformedTicket),
            Some(ticket) => match s.promoted(ticket.1, ticket.0) {
                Err(e) => Err(e),
                Ok(after) => Ok((after, ResponseView::empty())),
            },
        }
    }
}

/// The handling of a dispatch confirmation by its handle: only the handle that the
/// pipeline attaches is known.
pub open spec fn replied(
    s: StateView,
    id: u64,
    dispatch_failed: bool,
    data: Option<Seq<u8>>,
) -> Outcome {
    if id == SUDO_PAYLOAD_REPLY_ID {
        sudo_payload_prepared(s, dispatch_failed, data)
    } else {
        Err(ContractError::UnsupportedReplyId)
    }
}

/// A step of the pipeline that resumes after a remote message touches the staging slot
/// and the ownership ledger, and nothing else.
pub proof fn lemma_resumed_frame(
    s: StateView,
    contract: Seq<char>,
    payload: SudoPayloadView,
    outcome: RemoteOutcomeView,
    fee: Option<IbcFeeView>,
)
    ensures
        resumed(s, contract, payload, outcome, fee) matches Ok(done) ==> done.0.accounts
            == s.accounts && done.0.payloads == s.payloads && done.0.acks == s.acks
            && done.0.errors == s.errors,
{
}

/// What the remote messages of a successful operation lead to touches the staging slot
/// and the ownership ledger, and nothing else.
pub proof fn lemma_resumed_all_frame(
    s: StateView,
    contract: Seq<char>,
    payload: SudoPayloadView,
    items: Seq<(Seq<char>, Seq<u8>)>,
    fee: Option<IbcFeeView>,
)
    ensures
        resumed_all(s, contract, payload, items, fee) matches Ok(done) ==> done.0.accounts
            == s.accounts && done.0.payloads == s.payloads && done.0.acks == s.acks
            && done.0.errors == s.errors,
    decreases items.len(),
{
    if items.len() > 0 {
        lemma_resumed_all_frame(s, contract, payload, items.drop_last(), fee);
        match resumed_all(s, contract, payload, items.drop_last(), fee) {
            Err(_) => {},
            Ok(earlier) => {
                match outcome_of(items.last().0, items.last().1, payload.executor) {
                    Err(_) => {},
                    Ok(outcome) => {
                        lemma_resumed_frame(earlier.0, contract, payload, outcome, fee);
                    },
                }
            },
        }
    }
}

/// Where the first remote messages of an operation fail, all of them fail, in the same
/// way.
pub proof fn lemma_resumed_all_failure(
    s: StateView,
    contract: Seq<char>,
    payload: SudoPayloadView,
    items: Seq<(Seq<char>, Seq<u8>)>,
    n: int,
    fee: Option<IbcFeeView>,
)
    requires
        0 <= n <= items.len(),
        resumed_all(s, contract, payload, items.take(n), fee) is Err,
    ensures
        resumed_all(s, contract, payload, items, fee) == resumed_all(
            s,
            contract,
            payload,
            items.take(n),
            fee,
        ),
    decreases items.len(),
{
    if n == items.len() {
        assert(items.take(n) =~= items);
    } else {
        assert(items.drop_last().take(n) =~= items.take(n));
        lemma_resumed_all_failure(s, contract, payload, items.drop_last(), n, fee);
    }
}

} // verus!
