//! What an invocation hands back to the host: the operations to dispatch, in order.

use crate::types::{Coin, CoinView, IbcFee, IbcFeeView};
use vstd::prelude::*;

verus! {

/// A remote operation in its wire form, with the tag that names its type.
#[derive(Debug, PartialEq, Eq)]
pub struct ProtobufAny {
    pub type_url: String,
    pub value: Vec<u8>,
}

pub struct ProtobufAnyView {
    pub type_url: Seq<char>,
    pub value: Seq<u8>,
}

impl DeepView for ProtobufAny {
    type V = ProtobufAnyView;

    open spec fn deep_view(&self) -> ProtobufAnyView {
        ProtobufAnyView { type_url: self.type_url@, value: self.value@ }
    }
}

impl View for ProtobufAny {
    type V = ProtobufAnyView;

    open spec fn view(&self) -> ProtobufAnyView {
        self.deep_view()
    }
}

/// An operation that the host carries out for the contract.
#[derive(Debug, PartialEq, Eq)]
pub enum Msg {
    /// Asks the transport to create a remote account.
    RegisterInterchainAccount { connection_id: String, interchain_account_id: String },
    /// Asks the transport to run operations through a remote account.
    SubmitTx {
        connection_id: String,
        interchain_account_id: String,
        msgs: Vec<ProtobufAny>,
        memo: String,
        timeout: u64,
        fee: IbcFee,
    },
    /// Pays local funds to an address.
    BankSend { to_address: String, amount: Vec<Coin> },
}

pub enum MsgView {
    RegisterInterchainAccount { connection_id: Seq<char>, interchain_account_id: Seq<char> },
    SubmitTx {
        connection_id: Seq<char>,
        interchain_account_id: Seq<char>,
        msgs: Seq<ProtobufAnyView>,
        memo: Seq<char>,
        timeout: u64,
        fee: IbcFeeView,
    },
    BankSend { to_address: Seq<char>, amount: Seq<CoinView> },
}

impl DeepView for Msg {
    type V = MsgView;

    open spec fn deep_view(&self) -> MsgView {
        match self {
            Msg::RegisterInterchainAccount {
                connection_id,
                interchain_account_id,
            } => MsgView::RegisterInterchainAccount {
                connection_id: connection_id@,
                interchain_account_id: interchain_account_id@,
            },
            Msg::SubmitTx {
                connection_id,
                interchain_account_id,
                msgs,
                memo,
                timeout,
                fee,
            } => MsgView::SubmitTx {
                connection_id: connection_id@,
                interchain_account_id: interchain_account_id@,
                msgs: msgs.deep_view(),
                memo: memo@,
                timeout: *timeout,
                fee: fee.deep_view(),
            },
            Msg::BankSend { to_address, amount } => MsgView::BankSend {
                to_address: to_address@,
                amount: amount.deep_view(),
            },
        }
    }
}

impl View for Msg {
    type V = MsgView;

    open spec fn view(&self) -> MsgView {
        self.deep_view()
    }
}

/// An operation to dispatch, with the handle by which its confirmation is told apart,
/// and whether a confirmation is asked for when it succeeds.
#[derive(Debug, PartialEq, Eq)]
pub struct SubMsg {
    pub id: u64,
    pub msg: Msg,
    pub reply_on_success: bool,
}

pub struct SubMsgView {
    pub id: u64,
    pub msg: MsgView,
    pub reply_on_success: bool,
}

impl DeepView for SubMsg {
    type V = SubMsgView;

    open spec fn deep_view(&self) -> SubMsgView {
        SubMsgView {
            id: self.id,
            msg: self.msg.deep_view(),
            reply_on_success: self.reply_on_success,
        }
    }
}

impl View for SubMsg {
    type V = SubMsgView;

    open spec fn view(&self) -> SubMsgView {
        self.deep_view()
    }
}

/// What an invocation hands back: operations to dispatch and attributes to log.
#[derive(Debug, PartialEq, Eq)]
pub struct Response {
    pub messages: Vec<SubMsg>,
    pub attributes: Vec<(String, String)>,
}

pub struct ResponseView {
    pub messages: Seq<SubMsgView>,
    pub attributes: Seq<(Seq<char>, Seq<char>)>,
}

impl ResponseView {
    /// The response that asks for nothing.
    pub open spec fn empty() -> ResponseView {
        ResponseView { messages: Seq::empty(), attributes: Seq::empty() }
    }

    /// The response that asks for one operation.
    pub open spec fn of(msg: SubMsgView) -> ResponseView {
        ResponseView { messages: seq![msg], attributes: Seq::empty() }
    }

    /// This response, followed by what another one asks for.
    pub open spec fn followed_by(self, next: ResponseView) -> ResponseView {
        ResponseView {
            messages: self.messages + next.messages,
            attributes: self.attributes + next.attributes,
        }
    }
}

/// An operation that is dispatched without asking for a confirmation.
pub open spec fn plain_message(msg: MsgView) -> SubMsgView {
    SubMsgView { id: 0, msg, reply_on_success: false }
}

impl DeepView for Response {
    type V = ResponseView;

    open spec fn deep_view(&self) -> ResponseView {
        ResponseView {
            messages: self.messages.deep_view(),
            attributes: self.attributes.deep_view(),
        }
    }
}

impl View for Response {
    type V = ResponseView;

    open spec fn view(&self) -> ResponseView {
        self.deep_view()
    }
}

impl Response {
    /// The response that asks for nothing.
    pub fn new() -> (r: Response)
        ensures
            r@ == ResponseView::empty(),
    {
        let r = Response { messages: Vec::new(), attributes: Vec::new() };
        assert(r.messages.deep_view() =~= Seq::empty());
        assert(r.attributes.deep_view() =~= Seq::empty());
        r
    }

    /// Adds an operation that is dispatched without asking for a confirmation.
    pub fn add_message(self, msg: Msg) -> (r: Response)
        ensures
            r@ == self@.followed_by(ResponseView::of(plain_message(msg@))),
    {
        self.add_submessage(SubMsg { id: 0, msg, reply_on_success: false })
    }

    /// Adds an operation to dispatch.
    pub fn add_submessage(self, msg: SubMsg) -> (r: Response)
        ensures
            r@ == self@.followed_by(ResponseView::of(msg@)),
    {
        let mut messages = self.messages;
        let ghost before = messages.deep_view();
        messages.push(msg);
        let r = Response { messages, attributes: self.attributes };
        assert(r.messages.deep_view() =~= before + seq![msg@]);
        assert(r.attributes.deep_view() =~= self.attributes.deep_view() + Seq::empty());
        r
    }

    /// Adds an attribute to log.
    pub fn add_attribute(self, key: String, value: String) -> (r: Response)
        ensures
            r@ == (ResponseView {
                messages: self@.messages,
                attributes: self@.attributes.push((key@, value@)),
            }),
    {
        let mut attributes = self.attributes;
        let ghost before = attributes.deep_view();
        attributes.push((key, value));
        let r = Response { messages: self.messages, attributes };
        assert(r.attributes.deep_view() =~= before.push((key@, value@)));
        r
    }

    /// This response, followed by what another one asks for.
    pub fn followed_by(self, next: Response) -> (r: Response)
        ensures
            r@ == self@.followed_by(next@),
    {
        let mut messages = self.messages;
        let mut attributes = self.attributes;
        let ghost m0 = messages.deep_view();
        let ghost a0 = attributes.deep_view();
        let mut more_messages = next.messages;
        let mut more_attributes = next.attributes;
        let ghost m1 = more_messages.deep_view();
        let ghost a1 = more_attributes.deep_view();
        messages.append(&mut more_messages);
        attributes.append(&mut more_attributes);
        let r = Response { messages, attributes };
        assert(r.messages.deep_view() =~= m0 + m1);
        assert(r.attributes.deep_view() =~= a0 + a1);
        r
    }
}

} // verus!
