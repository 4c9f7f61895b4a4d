//! The contract's durable state: the registry of remote accounts, the staging slot, the
//! payload store, the acknowledgement ledger, the errors queue and the ownership ledger.

use crate::constants::SUDO_PAYLOAD_REPLY_ID;
use crate::error::ContractError;
use crate::ledger::{LedgerView, OwnershipLedger};
use crate::table::{Stored, Table};
use crate::types::{
    AcknowledgementResult, AcknowledgementView, MinterData, RemoteAccount, RemoteAccountView,
    SudoPayload, SudoPayloadView,
};
use vstd::prelude::*;

verus! {

/// The model of the state.
pub struct StateView {
    /// The remote accounts by controller port: `None` while the creation of a registered
    /// account is not confirmed.
    pub accounts: Map<Seq<char>, Option<RemoteAccountView>>,
    /// The payload of the last dispatch that has no ticket yet.
    pub staged: Option<SudoPayloadView>,
    /// The payloads by ticket: channel and sequence number.
    pub payloads: Map<(Seq<char>, u64), SudoPayloadView>,
    /// The recorded outcomes by controller port and sequence number.
    pub acks: Map<(Seq<char>, u64), AcknowledgementView>,
    /// The notes on outcomes that found no payload, oldest first.
    pub errors: Seq<Seq<char>>,
    /// The ownership ledger.
    pub ledger: LedgerView,
}

impl StateView {
    /// The remote account registered under a key, or why there is none to use.
    pub open spec fn resolve(self, key: Seq<char>) -> Result<RemoteAccountView, ContractError> {
        if !self.accounts.contains_key(key) {
            Err(ContractError::AccountNotFound)
        } else {
            match self.accounts[key] {
                None => Err(ContractError::AccountNotReady),
                Some(account) => Ok(account),
            }
        }
    }

    /// The state with a payload in the staging slot, in place of what was there.
    pub open spec fn staging(self, payload: SudoPayloadView) -> StateView {
        StateView { staged: Some(payload), ..self }
    }

    /// The state after the staged payload has moved to the payload store under a ticket,
    /// or why this fails.
    pub open spec fn promoted(self, channel_id: Seq<char>, sequence_id: u64) -> Result<
        StateView,
        ContractError,
    > {
        match self.staged {
            None => Err(ContractError::NothingStaged),
            Some(payload) => Ok(
                StateView {
                    staged: None,
                    payloads: self.payloads.insert((channel_id, sequence_id), payload),
                    ..self
                },
            ),
        }
    }

    /// The state after an outcome has been recorded under a key that had none, or why
    /// this fails.
    pub open spec fn recorded(self, key: (Seq<char>, u64), result: AcknowledgementView) -> Result<
        StateView,
        ContractError,
    > {
        if self.acks.contains_key(key) {
            Err(ContractError::AlreadyResolved)
        } else {
            Ok(StateView { acks: self.acks.insert(key, result), ..self })
        }
    }

    /// The state with one more note at the end of the errors queue.
    pub open spec fn noting(self, note: Seq<char>) -> StateView {
        StateView { errors: self.errors.push(note), ..self }
    }
}

/// The contract's durable state.
pub struct State {
    pub accounts: Table<String, Option<RemoteAccount>>,
    pub staged: Option<SudoPayload>,
    pub payloads: Table<(String, u64), SudoPayload>,
    pub acks: Table<(String, u64), AcknowledgementResult>,
    pub errors: Vec<String>,
    pub ledger: OwnershipLedger,
}

impl State {
    /// Each store holds each key once, and the ledger is sound.
    pub open spec fn wf(&self) -> bool {
        &&& self.accounts.wf()
        &&& self.payloads.wf()
        &&& self.acks.wf()
        &&& self.ledger.wf()
    }

    pub open spec fn view(&self) -> StateView {
        StateView {
            accounts: self.accounts@,
            staged: self.staged.deep_view(),
            payloads: self.payloads@,
            acks: self.acks@,
            errors: self.errors.deep_view(),
            ledger: self.ledger@,
        }
    }

    /// The state of a contract that has done nothing yet.
    pub fn new(mint: Option<MinterData>) -> (s: State)
        ensures
            s.wf(),
            s@ == (StateView {
                accounts: Map::empty(),
                staged: None,
                payloads: Map::empty(),
                acks: Map::empty(),
                errors: Seq::empty(),
                ledger: LedgerView {
                    total_supply: 0,
                    total_pool_value: 0,
                    balances: Map::empty(),
                    mint: mint.deep_view(),
                },
            }),
    {
        let s = State {
            accounts: Table::new(),
            staged: None,
            payloads: Table::new(),
            acks: Table::new(),
            errors: Vec::new(),
            ledger: OwnershipLedger::new(mint),
        };
        assert(s.errors.deep_view() =~= Seq::empty());
        s
    }

    /// Registers a remote account under a key: its creation is not confirmed yet. What
    /// the key held before is forgotten.
    pub fn register(&mut self, key: String)
        requires
            old(self).wf(),
        ensures
            final(self).wf(),
            final(self)@ == (StateView {
                accounts: old(self)@.accounts.insert(key@, None),
                ..old(self)@
            }),
    {
        self.accounts.insert(key, None);
    }

    /// Records the confirmed remote account under a key.
    pub fn confirm(&mut self, key: String, account: RemoteAccount)
        requires
            old(self).wf(),
        ensures
            final(self).wf(),
            final(self)@ == (StateView {
                accounts: old(self)@.accounts.insert(key@, Some(account@)),
                ..old(self)@
            }),
    {
        self.accounts.insert(key, Some(account));
    }

    /// The remote account under a key. It fails with `AccountNotFound` where the key was
    /// never registered, and with `AccountNotReady` where the creation is not confirmed.
    pub fn resolve(&self, key: &String) -> (res: Result<RemoteAccount, ContractError>)
        requires
            self.wf(),
        ensures
            match res {
                Ok(account) => self@.resolve(key@) == Ok::<RemoteAccountView, ContractError>(
                    account@,
                ),
                Err(e) => self@.resolve(key@) == Err::<RemoteAccountView, ContractError>(e),
            },
    {
        match self.accounts.get(key) {
            None => Err(ContractError::AccountNotFound),
            Some(entry) => match entry {
                None => Err(ContractError::AccountNotReady),
                Some(account) => Ok(account.replicate()),
            },
        }
    }

    /// Puts a payload into the staging slot, in place of what was there, and returns the
    /// handle to attach to the dispatch.
    pub fn stage(&mut self, payload: SudoPayload) -> (handle: u64)
        ensures
            handle == SUDO_PAYLOAD_REPLY_ID,
            final(self)@ == old(self)@.staging(payload@),
            old(self).wf() ==> final(self).wf(),
    {
        self.staged = Some(payload);
        SUDO_PAYLOAD_REPLY_ID
    }

    /// Moves the staged payload into the payload store under a ticket. It fails with
    /// `NothingStaged`, and changes nothing, where the slot is empty.
    pub fn promote(&mut self, channel_id: String, sequence_id: u64) -> (res: Result<
        (),
        ContractError,
    >)
        requires
            old(self).wf(),
        ensures
            final(self).wf(),
            match res {
                Ok(_) => old(self)@.promoted(channel_id@, sequence_id) == Ok::<
                    StateView,
                    ContractError,
                >(final(self)@),
                Err(e) => old(self)@.promoted(channel_id@, sequence_id) == Err::<
                    StateView,
                    ContractError,
                >(e) && final(self)@ == old(self)@,
            },
    {
        match self.staged.take() {
            None => Err(ContractError::NothingStaged),
            Some(payload) => {
                self.payloads.insert((channel_id, sequence_id), payload);
                Ok(())
            },
        }
    }

    /// The payload stored under a ticket, if there is one. The store keeps it.
    pub fn consume(&self, channel_id: &String, sequence_id: u64) -> (r: Option<SudoPayload>)
        requires
            self.wf(),
        ensures
            match r {
                Some(payload) => self@.payloads.contains_key((channel_id@, sequence_id))
                    && self@.payloads[(channel_id@, sequence_id)] == payload@,
                None => !self@.payloads.contains_key((channel_id@, sequence_id)),
            },
    {
        let key = (channel_id.clone(), sequence_id);
        match self.payloads.get(&key) {
            None => None,
            Some(payload) => Some(payload.replicate()),
        }
    }

    /// Records the outcome of a dispatch under its controller port and sequence number.
    /// It fails with `AlreadyResolved`, and changes nothing, where an outcome is recorded
    /// there already.
    pub fn record(&mut self, port_id: String, sequence_id: u64, result: AcknowledgementResult) -> (res:
        Result<(), ContractError>)
        requires
            old(self).wf(),
        ensures
            final(self).wf(),
            match res {
                Ok(_) => old(self)@.recorded((port_id@, sequence_id), result@) == Ok::<
                    StateView,
                    ContractError,
                >(final(self)@),
                Err(e) => old(self)@.recorded((port_id@, sequence_id), result@) == Err::<
                    StateView,
                    ContractError,
                >(e) && final(self)@ == old(self)@,
            },
            old(self)@.acks.contains_key((port_id@, sequence_id)) ==> res is Err,
    {
        let key = (port_id, sequence_id);
        if self.acks.contains(&key) {
            return Err(ContractError::AlreadyResolved);
        }
        self.acks.insert(key, result);
        Ok(())
    }

    /// The outcome recorded under a controller port and sequence number, if there is one.
    pub fn outcome(&self, port_id: &String, sequence_id: u64) -> (r: Option<AcknowledgementResult>)
        requires
            self.wf(),
        ensures
            match r {
                Some(result) => self@.acks.contains_key((port_id@, sequence_id)) && self@.acks[(
                    port_id@,
                    sequence_id,
                )] == result@,
                None => !self@.acks.contains_key((port_id@, sequence_id)),
            },
    {
        let key = (port_id.clone(), sequence_id);
        match self.acks.get(&key) {
            None => None,
            Some(result) => Some(result.replicate()),
        }
    }

    /// Appends a note to the errors queue.
    pub fn push_error(&mut self, note: String)
        ensures
            final(self)@ == old(self)@.noting(note@),
            old(self).wf() ==> final(self).wf(),
    {
        let ghost before = self.errors.deep_view();
        self.errors.push(note);
        assert(self.errors.deep_view() =~= before.push(note@));
    }
}

} // verus!
