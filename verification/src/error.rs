//! The ways in which an invocation can fail.

use vstd::prelude::*;

verus! {

/// Why an invocation failed. Every failure leaves the state as it was.
#[derive(Clone, Copy, Debug, PartialEq, Eq, Structural)]
pub enum ContractError {
    /// No funds came with a request that needs them.
    NoFunds,
    /// The minimum relayer fee could not be learnt.
    FeeUnavailable,
    /// The remote account was never registered.
    AccountNotFound,
    /// The remote account is registered, and its creation is not confirmed yet.
    AccountNotReady,
    /// The remote operation does not fit its wire form.
    EncodeFailed,
    /// No minting principal is configured.
    MinterNotConfigured,
    /// The caller is not the minting principal.
    Unauthorized,
    /// The issuance cap would be exceeded.
    CapExceeded,
    /// An amount does not fit in 128 bits.
    Overflow,
    /// The holder has less than the amount asked for.
    InsufficientBalance,
    /// The holder has no balance record.
    BalanceNotFound,
    /// The confirmation of the remote account's creation cannot be read.
    MalformedConfirmation,
    /// The staging slot is empty.
    NothingStaged,
    /// The transport reports that the dispatch failed.
    DispatchFailed,
    /// The dispatch confirmation carries no data.
    NoResult,
    /// The dispatch confirmation's data cannot be read.
    MalformedTicket,
    /// The confirmation carries a handle that this contract never attached.
    UnsupportedReplyId,
    /// The notification carries no sequence number.
    SequenceMissing,
    /// The notification carries no channel identifier.
    ChannelMissing,
    /// The remote result cannot be decoded.
    MalformedAcknowledgement,
    /// One message of the remote result cannot be decoded.
    MalformedMessage,
    /// The swap's output is no amount.
    MalformedAmount,
    /// The payload records no amount where the next step needs one.
    AmountMissing,
    /// The remote message's type tag is not one that the pipeline dispatches.
    UnknownMessageType,
    /// The remote message's type tag and the payload's step do not belong together.
    UnsupportedCombination,
    /// The swap could not be dispatched.
    SwapFailed,
    /// The deposit could not be dispatched.
    DeployFailed,
    /// The shares could not be issued.
    IssueFailed,
    /// The transfer back could not be dispatched.
    ReturnFundsFailed,
    /// The funds could not be released.
    ReleaseFailed,
    /// The ticket already has a recorded outcome.
    AlreadyResolved,
}

impl ContractError {
    /// The words in which the failure is reported.
    pub open spec fn text(self) -> Seq<char> {
        match self {
            ContractError::NoFunds => "No funds sent to contract"@,
            ContractError::FeeUnavailable => "Minimum IBC fee is not available"@,
            ContractError::AccountNotFound => "Interchain account not found"@,
            ContractError::AccountNotReady => "Interchain account is not created yet"@,
            ContractError::EncodeFailed => "Encode error"@,
            ContractError::MinterNotConfigured => "config.mint not found"@,
            ContractError::Unauthorized => "Unauthorized"@,
            ContractError::CapExceeded => "Cannot Exceed Cap"@,
            ContractError::Overflow => "Overflow"@,
            ContractError::InsufficientBalance => "Cannot claim more than you have"@,
            ContractError::BalanceNotFound => "Balance not found"@,
            ContractError::MalformedConfirmation => "Can't parse counterparty_version"@,
            ContractError::NothingStaged => "Reply payload not found"@,
            ContractError::DispatchFailed => "Dispatch failed"@,
            ContractError::NoResult => "no result"@,
            ContractError::MalformedTicket => "failed to parse response"@,
            ContractError::UnsupportedReplyId => "unsupported reply message id"@,
            ContractError::SequenceMissing => "sequence not found"@,
            ContractError::ChannelMissing => "channel_id not found"@,
            ContractError::MalformedAcknowledgement => "Can't decode response"@,
            ContractError::MalformedMessage => "Can't decode item"@,
            ContractError::MalformedAmount => "WASMDEBUG: Error: Unable to parse token_out_amount"@,
            ContractError::AmountMissing => "amount not found"@,
            ContractError::UnknownMessageType => "WASMDEBUG: Error: Unknown message type"@,
            ContractError::UnsupportedCombination => "WASMDEBUG: Error: Unknown executor"@,
            ContractError::SwapFailed => "WASMDEBUG: Error: Unable to execute_ic_swap"@,
            ContractError::DeployFailed => "WASMDEBUG: Error: Unable to execute_deploy"@,
            ContractError::IssueFailed => "WASMDEBUG: Error: Unable to execute_tokens_to_user"@,
            ContractError::ReturnFundsFailed => "WASMDEBUG: Error: Unable to execute_return_funds"@,
            ContractError::ReleaseFailed => "WASMDEBUG: Error: Unable to execute_return_funds_user"@,
            ContractError::AlreadyResolved => "trying to update same seq_id"@,
        }
    }

    /// The words in which the failure is reported.
    pub fn message(&self) -> (r: String)
        ensures
            r@ == self.text(),
    {
        let words = match self {
            ContractError::NoFunds => "No funds sent to contract",
            ContractError::FeeUnavailable => "Minimum IBC fee is not available",
            ContractError::AccountNotFound => "Interchain account not found",
            ContractError::AccountNotReady => "Interchain account is not created yet",
            ContractError::EncodeFailed => "Encode error",
            ContractError::MinterNotConfigured => "config.mint not found",
            ContractError::Unauthorized => "Unauthorized",
            ContractError::CapExceeded => "Cannot Exceed Cap",
            ContractError::Overflow => "Overflow",
            ContractError::InsufficientBalance => "Cannot claim more than you have",
            ContractError::BalanceNotFound => "Balance not found",
            ContractError::MalformedConfirmation => "Can't parse counterparty_version",
            ContractError::NothingStaged => "Reply payload not found",
            ContractError::DispatchFailed => "Dispatch failed",
            ContractError::NoResult => "no result",
            ContractError::MalformedTicket => "failed to parse response",
            ContractError::UnsupportedReplyId => "unsupported reply message id",
            ContractError::SequenceMissing => "sequence not found",
            ContractError::ChannelMissing => "channel_id not found",
            ContractError::MalformedAcknowledgement => "Can't decode response",
            ContractError::MalformedMessage => "Can't decode item",
            ContractError::MalformedAmount => "WASMDEBUG: Error: Unable to parse token_out_amount",
            ContractError::AmountMissing => "amount not found",
            ContractError::UnknownMessageType => "WASMDEBUG: Error: Unknown message type",
            ContractError::UnsupportedCombination => "WASMDEBUG: Error: Unknown executor",
            ContractError::SwapFailed => "WASMDEBUG: Error: Unable to execute_ic_swap",
            ContractError::DeployFailed => "WASMDEBUG: Error: Unable to execute_deploy",
            ContractError::IssueFailed => "WASMDEBUG: Error: Unable to execute_tokens_to_user",
            ContractError::ReturnFundsFailed => "WASMDEBUG: Error: Unable to execute_return_funds",
            ContractError::ReleaseFailed => "WASMDEBUG: Error: Unable to execute_return_funds_user",
            ContractError::AlreadyResolved => "trying to update same seq_id",
        };
        words.to_owned()
    }
}

} // verus!
