//! The requests that reach the contract, and what it answers to a query.

use crate::types::{AcknowledgementResult, OpenAckVersion, RequestPacket};
use vstd::prelude::*;

verus! {

/// A request of a caller.
#[derive(Debug, PartialEq, Eq)]
pub enum ExecuteMsg {
    /// Registers a remote account.
    Register { connection_id: String, interchain_account_id: String },
    /// Deposits the attached funds.
    Fund {},
}

/// A query.
#[derive(Debug, PartialEq, Eq)]
pub enum QueryMsg {
    /// The address of a remote account, as the transport knows it.
    InterchainAccountAddress { interchain_account_id: String, connection_id: String },
    /// The address of a remote account, as the registry knows it.
    InterchainAccountAddressFromContract { interchain_account_id: String },
    /// The recorded outcome of a dispatch.
    AcknowledgementResult { interchain_account_id: String, sequence_id: u64 },
    /// The errors queue.
    ErrorsQueue {},
    /// The shares issued and the value pooled.
    Supply {},
    /// The shares of a holder.
    Balance { addr: String },
}

/// The question to put to the transport about a remote account's address.
#[derive(Debug, PartialEq, Eq)]
pub struct AddressQuery {
    pub owner_address: String,
    pub interchain_account_id: String,
    pub connection_id: String,
}

/// The answer to a query.
#[derive(Debug, PartialEq, Eq)]
pub enum QueryResponse {
    /// The answer is the transport's, to this question.
    AskTransport(AddressQuery),
    /// The address and the connection of a remote account.
    Account((String, String)),
    /// The recorded outcome, if there is one.
    Acknowledgement(Option<AcknowledgementResult>),
    /// The notes in the errors queue, oldest first.
    Errors(Vec<String>),
    /// The shares issued and the value pooled.
    Supply((u128, u128)),
    /// The shares of a holder.
    Balance(u128),
}

/// A notification of the transport.
#[derive(Debug, PartialEq, Eq)]
pub enum SudoMsg {
    /// A dispatched operation succeeded.
    Response { request: RequestPacket, data: Vec<u8> },
    /// The remote chain reported an error.
    Error { request: RequestPacket, details: String },
    /// A dispatched operation timed out.
    Timeout { request: RequestPacket },
    /// The creation of a remote account is confirmed. The confirmation document is
    /// `None` where it could not be read.
    OpenAck {
        port_id: String,
        channel_id: String,
        counterparty_channel_id: String,
        counterparty_version: Option<OpenAckVersion>,
    },
    /// A notification that this contract does not act on.
    Other,
}

/// How a dispatch went, as the transport reports it.
#[derive(Debug, PartialEq, Eq)]
pub enum SubMsgResult {
    /// The dispatch succeeded; the data that came back, if any.
    Success { data: Option<Vec<u8>> },
    /// The dispatch failed, with this message.
    Failure(String),
}

/// The confirmation of a dispatch.
#[derive(Debug, PartialEq, Eq)]
pub struct Reply {
    /// The handle that was attached to the dispatch.
    pub id: u64,
    pub result: SubMsgResult,
}

} // verus!
