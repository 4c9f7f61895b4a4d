//! The plain values that the pipeline works on, each with its model.

use crate::table::Stored;
use vstd::prelude::*;

verus! {

/// An amount of one denomination.
#[derive(Debug, PartialEq, Eq)]
pub struct Coin {
    pub denom: String,
    pub amount: u128,
}

pub struct CoinView {
    pub denom: Seq<char>,
    pub amount: u128,
}

impl DeepView for Coin {
    type V = CoinView;

    open spec fn deep_view(&self) -> CoinView {
        CoinView { denom: self.denom@, amount: self.amount }
    }
}

impl View for Coin {
    type V = CoinView;

    open spec fn view(&self) -> CoinView {
        self.deep_view()
    }
}

impl Stored for Coin {
    fn replicate(&self) -> (r: Self) {
        Coin { denom: self.denom.clone(), amount: self.amount }
    }
}

/// The fees that refund a relayer, by the kind of packet it submits.
#[derive(Debug, PartialEq, Eq)]
pub struct IbcFee {
    pub recv_fee: Vec<Coin>,
    pub ack_fee: Vec<Coin>,
    pub timeout_fee: Vec<Coin>,
}

pub struct IbcFeeView {
    pub recv_fee: Seq<CoinView>,
    pub ack_fee: Seq<CoinView>,
    pub timeout_fee: Seq<CoinView>,
}

impl DeepView for IbcFee {
    type V = IbcFeeView;

    open spec fn deep_view(&self) -> IbcFeeView {
        IbcFeeView {
            recv_fee: self.recv_fee.deep_view(),
            ack_fee: self.ack_fee.deep_view(),
            timeout_fee: self.timeout_fee.deep_view(),
        }
    }
}

impl View for IbcFee {
    type V = IbcFeeView;

    open spec fn view(&self) -> IbcFeeView {
        self.deep_view()
    }
}

impl Stored for IbcFee {
    fn replicate(&self) -> (r: Self) {
        IbcFee {
            recv_fee: self.recv_fee.replicate(),
            ack_fee: self.ack_fee.replicate(),
            timeout_fee: self.timeout_fee.replicate(),
        }
    }
}

/// What an invocation knows of its surroundings: the contract's own address.
#[derive(Debug, PartialEq, Eq)]
pub struct Env {
    pub contract_address: String,
}

/// Who calls, and the funds attached to the call.
#[derive(Debug, PartialEq, Eq)]
pub struct MessageInfo {
    pub sender: String,
    pub funds: Vec<Coin>,
}

/// What a notification says of the packet it is about: its sequence number and the
/// channel it was sent on, where the transport gives them.
#[derive(Debug, PartialEq, Eq)]
pub struct RequestPacket {
    pub sequence: Option<u64>,
    pub source_channel: Option<String>,
}

/// The confirmation document of a remote account's creation.
#[derive(Debug, PartialEq, Eq)]
pub struct OpenAckVersion {
    pub version: String,
    pub controller_connection_id: String,
    pub host_connection_id: String,
    pub address: String,
    pub encoding: String,
    pub tx_type: String,
}

/// A confirmed remote account.
#[derive(Debug, PartialEq, Eq)]
pub struct RemoteAccount {
    pub address: String,
    pub connection_id: String,
}

pub struct RemoteAccountView {
    pub address: Seq<char>,
    pub connection_id: Seq<char>,
}

impl DeepView for RemoteAccount {
    type V = RemoteAccountView;

    open spec fn deep_view(&self) -> RemoteAccountView {
        RemoteAccountView { address: self.address@, connection_id: self.connection_id@ }
    }
}

impl View for RemoteAccount {
    type V = RemoteAccountView;

    open spec fn view(&self) -> RemoteAccountView {
        self.deep_view()
    }
}

impl Stored for RemoteAccount {
    fn replicate(&self) -> (r: Self) {
        RemoteAccount { address: self.address.clone(), connection_id: self.connection_id.clone() }
    }
}

/// Who may mint, and up to which total supply.
#[derive(Debug, PartialEq, Eq)]
pub struct MinterData {
    pub minter: String,
    pub cap: Option<u128>,
}

pub struct MinterView {
    pub minter: Seq<char>,
    pub cap: Option<u128>,
}

impl DeepView for MinterData {
    type V = MinterView;

    open spec fn deep_view(&self) -> MinterView {
        MinterView { minter: self.minter@, cap: self.cap }
    }
}

impl View for MinterData {
    type V = MinterView;

    open spec fn view(&self) -> MinterView {
        self.deep_view()
    }
}

impl Stored for MinterData {
    fn replicate(&self) -> (r: Self) {
        MinterData { minter: self.minter.clone(), cap: self.cap }
    }
}

/// The step of the pipeline that dispatched a remote operation.
#[derive(Clone, Copy, Debug, PartialEq, Eq, Structural)]
pub enum Step {
    /// The depositor's funds go to the remote account.
    TransferOut,
    /// The funds are swapped into the settlement asset.
    Swap,
    /// The settlement asset goes into the yield pool.
    Deposit,
    /// Shares are issued to the depositor.
    IssueShares,
    /// The settlement asset is withdrawn from the yield pool.
    Withdraw,
    /// The withdrawn asset comes back from the remote account.
    TransferBack,
}

impl Step {
    /// The name under which the step is written down.
    pub open spec fn text(self) -> Seq<char> {
        match self {
            Step::TransferOut => "execute_fund_to_osmosis"@,
            Step::Swap => "swap_osmosis"@,
            Step::Deposit => "execute_fund"@,
            Step::IssueShares => "execute_tokens_to_user"@,
            Step::Withdraw => "execute_claim"@,
            Step::TransferBack => "execute_return_funds"@,
        }
    }

    /// The name under which the step is written down.
    pub fn name(&self) -> (r: String)
        ensures
            r@ == self.text(),
    {
        let words = match self {
            Step::TransferOut => "execute_fund_to_osmosis",
            Step::Swap => "swap_osmosis",
            Step::Deposit => "execute_fund",
            Step::IssueShares => "execute_tokens_to_user",
            Step::Withdraw => "execute_claim",
            Step::TransferBack => "execute_return_funds",
        };
        words.to_owned()
    }

    /// The step that is written down under a name, if the name is that of a step.
    pub fn from_name(name: &String) -> (r: Option<Step>)
        ensures
            match r {
                Some(step) => name@ == step.text(),
                None => forall|step: Step| name@ != #[trigger] step.text(),
            },
    {
        if *name == "execute_fund_to_osmosis".to_owned() {
            Some(Step::TransferOut)
        } else if *name == "swap_osmosis".to_owned() {
            Some(Step::Swap)
        } else if *name == "execute_fund".to_owned() {
            Some(Step::Deposit)
        } else if *name == "execute_tokens_to_user".to_owned() {
            Some(Step::IssueShares)
        } else if *name == "execute_claim".to_owned() {
            Some(Step::Withdraw)
        } else if *name == "execute_return_funds".to_owned() {
            Some(Step::TransferBack)
        } else {
            None
        }
    }
}

/// Why a remote operation was sent: kept from its dispatch until its outcome arrives.
#[derive(Debug, PartialEq, Eq)]
pub struct SudoPayload {
    /// The controller port of the remote account that the operation went through.
    pub port_id: String,
    /// The label under which the outcome is recorded.
    pub message: String,
    /// The principal on whose behalf the pipeline runs.
    pub sender: String,
    /// The step that dispatched the operation.
    pub executor: Step,
    /// The amount that the next step works on, where there is one.
    pub amount: Option<u128>,
}

pub struct SudoPayloadView {
    pub port_id: Seq<char>,
    pub message: Seq<char>,
    pub sender: Seq<char>,
    pub executor: Step,
    pub amount: Option<u128>,
}

impl DeepView for SudoPayload {
    type V = SudoPayloadView;

    open spec fn deep_view(&self) -> SudoPayloadView {
        SudoPayloadView {
            port_id: self.port_id@,
            message: self.message@,
            sender: self.sender@,
            executor: self.executor,
            amount: self.amount,
        }
    }
}

impl View for SudoPayload {
    type V = SudoPayloadView;

    open spec fn view(&self) -> SudoPayloadView {
        self.deep_view()
    }
}

impl Stored for SudoPayload {
    fn replicate(&self) -> (r: Self) {
        SudoPayload {
            port_id: self.port_id.clone(),
            message: self.message.clone(),
            sender: self.sender.clone(),
            executor: self.executor,
            amount: self.amount,
        }
    }
}

/// The terminal outcome of a dispatched operation.
#[derive(Debug, PartialEq, Eq)]
pub enum AcknowledgementResult {
    /// The operation succeeded; the type tags of the remote messages, in order.
    Success(Vec<String>),
    /// The remote chain reported an error; the payload's label and the details.
    Error((String, String)),
    /// The operation timed out; the payload's label.
    Timeout(String),
}

pub enum AcknowledgementView {
    Success(Seq<Seq<char>>),
    Error((Seq<char>, Seq<char>)),
    Timeout(Seq<char>),
}

impl DeepView for AcknowledgementResult {
    type V = AcknowledgementView;

    open spec fn deep_view(&self) -> AcknowledgementView {
        match self {
            AcknowledgementResult::Success(tags) => AcknowledgementView::Success(tags.deep_view()),
            AcknowledgementResult::Error(e) => AcknowledgementView::Error((e.0@, e.1@)),
            AcknowledgementResult::Timeout(label) => AcknowledgementView::Timeout(label@),
        }
    }
}

impl View for AcknowledgementResult {
    type V = AcknowledgementView;

    open spec fn view(&self) -> AcknowledgementView {
        self.deep_view()
    }
}

impl Stored for AcknowledgementResult {
    fn replicate(&self) -> (r: Self) {
        match self {
            AcknowledgementResult::Success(tags) => AcknowledgementResult::Success(
                tags.replicate(),
            ),
            AcknowledgementResult::Error(e) => AcknowledgementResult::Error(
                (e.0.clone(), e.1.clone()),
            ),
            AcknowledgementResult::Timeout(label) => AcknowledgementResult::Timeout(label.clone()),
        }
    }
}

} // verus!
