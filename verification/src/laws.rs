//! What holds of the pipeline as a whole: recorded outcomes are final, the errors queue
//! only grows, and the ledger's rate survives a deposit.

use crate::contract::{execute_model, sudo_model};
use crate::error::ContractError;
use crate::ledger::{convert, LedgerView};
use crate::constants::MISSING_PAYLOAD_NOTE;
use crate::model::{
    claim, error, lemma_resumed_all_frame, replied, response, timeout, unmatched,
};
use crate::msg::{ExecuteMsg, SudoMsg};
use crate::state::StateView;
use crate::types::{AcknowledgementView, CoinView, IbcFeeView};
use crate::wire::acknowledgement_items;
use vstd::prelude::*;

verus! {

/// Whether every outcome recorded in one state is recorded, unchanged, in another.
pub open spec fn keeps_outcomes(before: StateView, after: StateView) -> bool {
    forall|key: (Seq<char>, u64)| #[trigger]
        before.acks.contains_key(key) ==> after.acks.contains_key(key) && after.acks[key]
            == before.acks[key]
}

/// Once an outcome is recorded under a key, a second attempt to record one there fails,
/// whatever the outcome, and the first one stays.
pub proof fn lemma_second_record_fails(
    s: StateView,
    key: (Seq<char>, u64),
    first: AcknowledgementView,
    second: AcknowledgementView,
)
    requires
        s.recorded(key, first) is Ok,
    ensures
        s.recorded(key, first)->Ok_0.acks[key] == first,
        s.recorded(key, first)->Ok_0.recorded(key, second) == Err::<StateView, ContractError>(
            ContractError::AlreadyResolved,
        ),
{
}

/// No notification of the transport removes or changes a recorded outcome: at most one
/// outcome is ever recorded for a dispatch.
pub proof fn lemma_notifications_keep_outcomes(
    s: StateView,
    contract: Seq<char>,
    msg: SudoMsg,
    fee: Option<IbcFeeView>,
)
    ensures
        sudo_model(s, contract, msg, fee) matches Ok(done) ==> keeps_outcomes(s, done.0),
{
    match msg {
        SudoMsg::Response { request, data } => {
            let channel = request.source_channel.deep_view();
            if request.sequence is Some && channel is Some && s.payloads.contains_key(
                (channel->0, request.sequence->0),
            ) {
                let payload = s.payloads[(channel->0, request.sequence->0)];
                match acknowledgement_items(data@) {
                    None => {},
                    Some(items) => {
                        lemma_resumed_all_frame(s, contract, payload, items, fee);
                    },
                }
            }
        },
        _ => {},
    }
}

/// No request of a caller and no dispatch confirmation removes or changes a recorded
/// outcome.
pub proof fn lemma_requests_keep_outcomes(
    s: StateView,
    contract: Seq<char>,
    sender: Seq<char>,
    funds: Seq<CoinView>,
    msg: ExecuteMsg,
    fee: Option<IbcFeeView>,
    reply_id: u64,
    dispatch_failed: bool,
    data: Option<Seq<u8>>,
)
    ensures
        execute_model(s, contract, sender, funds, msg, fee) matches Ok(done) ==> keeps_outcomes(
            s,
            done.0,
        ),
        replied(s, reply_id, dispatch_failed, data) matches Ok(done) ==> keeps_outcomes(s, done.0),
{
}

/// A success notification for a dispatch whose outcome is recorded already fails: the
/// state stays as it is, whatever the remote result holds.
pub proof fn lemma_resolved_dispatch_rejects_success(
    s: StateView,
    contract: Seq<char>,
    sequence: u64,
    channel: Seq<char>,
    data: Seq<u8>,
    fee: Option<IbcFeeView>,
)
    requires
        s.payloads.contains_key((channel, sequence)),
        s.acks.contains_key((s.payloads[(channel, sequence)].port_id, sequence)),
    ensures
        response(s, contract, Some(sequence), Some(channel), data, fee) is Err,
{
    let payload = s.payloads[(channel, sequence)];
    match acknowledgement_items(data) {
        None => {},
        Some(items) => {
            lemma_resumed_all_frame(s, contract, payload, items, fee);
        },
    }
}

/// An error or a timeout notification for a dispatch whose outcome is recorded already
/// fails with `AlreadyResolved`.
pub proof fn lemma_resolved_dispatch_rejects_closing(
    s: StateView,
    sequence: u64,
    channel: Seq<char>,
    details: Seq<char>,
)
    requires
        s.payloads.contains_key((channel, sequence)),
        s.acks.contains_key((s.payloads[(channel, sequence)].port_id, sequence)),
    ensures
        error(s, Some(sequence), Some(channel), details) == Err::<
            (StateView, crate::response::ResponseView),
            ContractError,
        >(ContractError::AlreadyResolved),
        timeout(s, Some(sequence), Some(channel)) == Err::<
            (StateView, crate::response::ResponseView),
            ContractError,
        >(ContractError::AlreadyResolved),
{
}

/// The rate of supply to pooled value, rounded down, is the same after a deposit as
/// before it.
pub proof fn lemma_rate_survives_deposit(total_supply: u128, total_pool_value: u128, value: u128)
    requires
        total_pool_value > 0,
    ensures
        (total_supply + convert(total_supply, total_pool_value, value)) / (total_pool_value
            + value) == (total_supply / total_pool_value) as int,
{
    let s = total_supply as int;
    let p = total_pool_value as int;
    let v = value as int;
    let r = s / p;
    let m = s % p;
    assert(s == r * p + m && 0 <= m < p) by (nonlinear_arith)
        requires
            p > 0,
            r == s / p,
            m == s % p,
    ;
    assert(s + r * v == r * (p + v) + m) by (nonlinear_arith)
        requires
            s == r * p + m,
    ;
    assert((r * (p + v) + m) / (p + v) == r) by (nonlinear_arith)
        requires
            0 <= m < p + v,
            p + v > 0,
    ;
}

/// The shares that a deposit is worth are no more than its exact share of the supply:
/// rounding favours the pool, never the depositor.
pub proof fn lemma_rounding_favours_pool(total_supply: u128, total_pool_value: u128, value: u128)
    requires
        total_pool_value > 0,
    ensures
        convert(total_supply, total_pool_value, value) * total_pool_value <= total_supply * value,
{
    let s = total_supply as int;
    let p = total_pool_value as int;
    let v = value as int;
    let r = s / p;
    assert(r * v * p <= s * v) by (nonlinear_arith)
        requires
            p > 0,
            v >= 0,
            r == s / p,
            s >= 0,
    ;
}

/// A deposit followed by the redemption of the shares it was worth returns the holder
/// to the balance before: the deposit credits the shares, the holder owns enough to
/// claim them, they are worth to the claim what the rate before the deposit makes of
/// them, and the release debits exactly them.
pub proof fn lemma_deposit_then_redeem(
    l: LedgerView,
    minter: Seq<char>,
    holder: Seq<char>,
    value: u128,
)
    requires
        l.issued(minter, holder, value) is Ok,
    ensures
        ({
            let shares = l.shares_for(value) as u128;
            let after = l.issued(minter, holder, value)->Ok_0;
            &&& after.total_supply == l.total_supply + shares
            &&& after.total_pool_value == l.total_pool_value + value
            &&& after.balance_of(holder) == l.balance_of(holder) + shares
            &&& after.balance_of(holder) >= shares
            &&& l.total_pool_value > 0 ==> after.shares_for(shares) == (l.total_supply
                / l.total_pool_value) * shares
            &&& after.debited(holder, shares) is Ok
            &&& after.debited(holder, shares)->Ok_0.balance_of(holder) == l.balance_of(holder)
        }),
{
    if l.total_pool_value > 0 {
        lemma_rate_survives_deposit(l.total_supply, l.total_pool_value, value);
    }
}

/// Whether the errors queue of one state is that of another with notes added at the end.
pub open spec fn extends_errors(before: StateView, after: StateView) -> bool {
    before.errors.len() <= after.errors.len() && after.errors.take(before.errors.len() as int)
        == before.errors
}

/// The errors queue only grows: no request, confirmation or notification takes a note
/// out of it or changes one.
pub proof fn lemma_errors_queue_only_grows(
    s: StateView,
    contract: Seq<char>,
    sender: Seq<char>,
    funds: Seq<CoinView>,
    request: ExecuteMsg,
    notification: SudoMsg,
    fee: Option<IbcFeeView>,
    reply_id: u64,
    dispatch_failed: bool,
    data: Option<Seq<u8>>,
)
    ensures
        execute_model(s, contract, sender, funds, request, fee) matches Ok(done)
            ==> extends_errors(s, done.0),
        replied(s, reply_id, dispatch_failed, data) matches Ok(done) ==> extends_errors(s, done.0),
        sudo_model(s, contract, notification, fee) matches Ok(done) ==> extends_errors(s, done.0),
{
    assert(s.errors.take(s.errors.len() as int) =~= s.errors);
    assert(s.errors.push(MISSING_PAYLOAD_NOTE@).take(s.errors.len() as int) =~= s.errors);
    match notification {
        SudoMsg::Response { request, data } => {
            let channel = request.source_channel.deep_view();
            if request.sequence is Some && channel is Some && s.payloads.contains_key(
                (channel->0, request.sequence->0),
            ) {
                let payload = s.payloads[(channel->0, request.sequence->0)];
                match acknowledgement_items(data@) {
                    None => {},
                    Some(items) => {
                        lemma_resumed_all_frame(s, contract, payload, items, fee);
                    },
                }
            }
        },
        _ => {},
    }
}

/// A notification for a ticket without a payload is never fatal: whether it reports a
/// success, an error or a timeout, one note is added to the errors queue, nothing else
/// changes, and the response is empty.
pub proof fn lemma_unmatched_notification_is_noted(
    s: StateView,
    contract: Seq<char>,
    sequence: u64,
    channel: Seq<char>,
    data: Seq<u8>,
    details: Seq<char>,
    fee: Option<IbcFeeView>,
)
    requires
        !s.payloads.contains_key((channel, sequence)),
    ensures
        response(s, contract, Some(sequence), Some(channel), data, fee) == unmatched(s),
        error(s, Some(sequence), Some(channel), details) == unmatched(s),
        timeout(s, Some(sequence), Some(channel)) == unmatched(s),
        unmatched(s) matches Ok(done) && done.0.errors.len() == s.errors.len() + 1 && done.0
            == s.noting(MISSING_PAYLOAD_NOTE@) && done.1 == crate::response::ResponseView::empty(),
{
}

/// A claim leaves the ledger as it is: the holder's balance is debited only when the
/// funds are released.
pub proof fn lemma_claim_leaves_ledger(
    s: StateView,
    contract: Seq<char>,
    sender: Seq<char>,
    amount: u128,
    fee: Option<IbcFeeView>,
)
    ensures
        claim(s, contract, sender, amount, fee) matches Ok(done) ==> done.0.ledger == s.ledger,
        amount > s.ledger.balance_of(sender) ==> claim(s, contract, sender, amount, fee) == Err::<
            (StateView, crate::response::ResponseView),
            ContractError,
        >(ContractError::InsufficientBalance),
{
}

} // verus!
