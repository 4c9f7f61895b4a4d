//! The ownership ledger: issued shares, pooled value and what each holder owns.

use crate::error::ContractError;
use crate::table::{Stored, Table};
use crate::types::{MinterData, MinterView};
use vstd::prelude::*;

verus! {

/// What `amount` is worth at the rate of `total_supply` to `total_pool_value`, the rate
/// rounded down to a whole number before it is applied. While the pool holds no value
/// there is no rate, and an amount is worth itself.
pub open spec fn convert(total_supply: u128, total_pool_value: u128, amount: u128) -> nat {
    if total_pool_value == 0 {
        amount as nat
    } else {
        ((total_supply / total_pool_value) * amount) as nat
    }
}

/// The model of the ledger.
pub struct LedgerView {
    /// The shares issued so far.
    pub total_supply: u128,
    /// The value that the pool holds.
    pub total_pool_value: u128,
    /// The shares of each holder that has a record.
    pub balances: Map<Seq<char>, u128>,
    /// Who may mint, and up to which total supply.
    pub mint: Option<MinterView>,
}

impl LedgerView {
    /// The shares of a holder: 0 where the holder has no record.
    pub open spec fn balance_of(self, holder: Seq<char>) -> u128 {
        if self.balances.contains_key(holder) {
            self.balances[holder]
        } else {
            0
        }
    }

    /// The ledger after `sender` mints `amount` shares to `recipient`, or why this fails:
    /// no minter is configured, the sender is not the minter, or the supply would pass
    /// 128 bits or the cap. (A balance cannot pass 128 bits where the supply does not, as
    /// long as the balances together are within the supply.)
    pub open spec fn minted(self, sender: Seq<char>, recipient: Seq<char>, amount: u128) -> Result<
        LedgerView,
        ContractError,
    > {
        match self.mint {
            None => Err(ContractError::MinterNotConfigured),
            Some(m) => if m.minter != sender {
                Err(ContractError::Unauthorized)
            } else if self.total_supply + amount > u128::MAX {
                Err(ContractError::Overflow)
            } else if m.cap is Some && self.total_supply + amount > m.cap->0 {
                Err(ContractError::CapExceeded)
            } else if self.balance_of(recipient) + amount > u128::MAX {
                Err(ContractError::Overflow)
            } else {
                Ok(
                    LedgerView {
                        total_supply: (self.total_supply + amount) as u128,
                        balances: self.balances.insert(
                            recipient,
                            (self.balance_of(recipient) + amount) as u128,
                        ),
                        ..self
                    },
                )
            },
        }
    }

    /// The ledger after `amount` shares are taken from `holder`, or why this fails.
    pub open spec fn debited(self, holder: Seq<char>, amount: u128) -> Result<
        LedgerView,
        ContractError,
    > {
        if self.balance_of(holder) < amount {
            Err(ContractError::InsufficientBalance)
        } else {
            Ok(
                LedgerView {
                    balances: self.balances.insert(
                        holder,
                        (self.balance_of(holder) - amount) as u128,
                    ),
                    ..self
                },
            )
        }
    }

    /// The shares that a deposit of `value` is worth.
    pub open spec fn shares_for(self, value: u128) -> nat {
        convert(self.total_supply, self.total_pool_value, value)
    }

    /// The ledger after a deposit of `value` on behalf of `depositor`: the pool grows by
    /// the value, and `minter` mints the shares that it is worth to the depositor.
    pub open spec fn issued(self, minter: Seq<char>, depositor: Seq<char>, value: u128) -> Result<
        LedgerView,
        ContractError,
    > {
        if self.shares_for(value) > u128::MAX || self.total_pool_value + value > u128::MAX {
            Err(ContractError::Overflow)
        } else {
            LedgerView {
                total_pool_value: (self.total_pool_value + value) as u128,
                ..self
            }.minted(minter, depositor, self.shares_for(value) as u128)
        }
    }
}

/// The ownership ledger.
pub struct OwnershipLedger {
    total_supply: u128,
    total_pool_value: u128,
    balances: Table<String, u128>,
    mint: Option<MinterData>,
}

impl OwnershipLedger {
    /// The shares that all holders own together.
    pub closed spec fn circulating(&self) -> nat {
        self.balances.total()
    }

    /// No holder has two records, and the holders together own no more than was issued.
    pub closed spec fn wf(&self) -> bool {
        &&& self.balances.wf()
        &&& self.balances.total() <= self.total_supply
    }

    pub closed spec fn view(&self) -> LedgerView {
        LedgerView {
            total_supply: self.total_supply,
            total_pool_value: self.total_pool_value,
            balances: self.balances@,
            mint: self.mint.deep_view(),
        }
    }

    /// What one holder owns is part of what all own, which is no more than was issued.
    pub proof fn lemma_balance_bounded(&self, holder: Seq<char>)
        requires
            self.wf(),
        ensures
            self@.balance_of(holder) <= self.circulating() <= self@.total_supply,
    {
        self.balances.lemma_amount_le_total(holder);
    }

    /// A ledger without shares, value or holders.
    pub fn new(mint: Option<MinterData>) -> (l: Self)
        ensures
            l.wf(),
            l.circulating() == 0,
            l@ == (LedgerView {
                total_supply: 0,
                total_pool_value: 0,
                balances: Map::empty(),
                mint: mint.deep_view(),
            }),
    {
        let balances: Table<String, u128> = Table::new();
        proof {
            balances.lemma_total_of_empty();
        }
        OwnershipLedger { total_supply: 0, total_pool_value: 0, balances, mint }
    }

    /// The ledger with the given totals and balances, where the balances together are no
    /// more than the supply; no ledger otherwise. Of two balances of one holder the later
    /// counts, and where each holder is listed once the balances count as listed.
    pub fn restore(
        total_supply: u128,
        total_pool_value: u128,
        mint: Option<MinterData>,
        balances: &Vec<(String, u128)>,
    ) -> (r: Option<Self>)
        ensures
            r matches Some(l) ==> l.wf() && l@ == (LedgerView {
                total_supply,
                total_pool_value,
                balances: crate::table::entries_map(balances@),
                mint: mint.deep_view(),
            }),
            crate::table::distinct_keys(balances@) ==> (r is Some <==> crate::table::amounts_sum(
                balances@,
            ) <= total_supply),
    {
        let table: Table<String, u128> = Table::from_amounts(balances);
        match table.checked_total() {
            Some(t) => if t <= total_supply {
                Some(OwnershipLedger { total_supply, total_pool_value, balances: table, mint })
            } else {
                None
            },
            None => None,
        }
    }

    /// The shares issued so far.
    pub fn total_supply(&self) -> (r: u128)
        ensures
            r == self@.total_supply,
    {
        self.total_supply
    }

    /// The value that the pool holds.
    pub fn total_pool_value(&self) -> (r: u128)
        ensures
            r == self@.total_pool_value,
    {
        self.total_pool_value
    }

    /// Who may mint, and up to which total supply.
    pub fn minter(&self) -> (r: &Option<MinterData>)
        ensures
            r.deep_view() == self@.mint,
    {
        &self.mint
    }

    /// The shares of a holder, where the holder has a record.
    pub fn balance(&self, holder: &String) -> (r: Option<u128>)
        requires
            self.wf(),
        ensures
            match r {
                Some(b) => self@.balances.contains_key(holder@) && self@.balances[holder@] == b,
                None => !self@.balances.contains_key(holder@),
            },
            r.unwrap_or(0) == self@.balance_of(holder@),
    {
        match self.balances.get(holder) {
            Some(b) => Some(*b),
            None => None,
        }
    }

    /// The holders' records, one for each holder.
    pub fn balances(&self) -> (r: &Vec<(String, u128)>)
        ensures
            crate::table::entries_map(r@) == self@.balances,
    {
        self.balances.entries()
    }

    /// What `amount` shares are worth at the ledger's rate, where that fits in 128 bits.
    pub fn redeemable(&self, amount: u128) -> (r: Option<u128>)
        ensures
            match r {
                Some(v) => v == self@.shares_for(amount),
                None => self@.shares_for(amount) > u128::MAX,
            },
    {
        if self.total_pool_value == 0 {
            Some(amount)
        } else {
            (self.total_supply / self.total_pool_value).checked_mul(amount)
        }
    }

    /// Mints `amount` shares to `recipient` in the name of `sender`: the supply and the
    /// recipient's balance grow by the amount. It fails, and changes nothing, where no
    /// minter is configured, where `sender` is not the minter, and where the supply would
    /// pass 128 bits or the configured cap.
    pub fn mint(&mut self, sender: &String, recipient: String, amount: u128) -> (res: Result<
        (),
        ContractError,
    >)
        requires
            old(self).wf(),
        ensures
            final(self).wf(),
            match res {
                Ok(_) => old(self)@.minted(sender@, recipient@, amount) == Ok::<
                    LedgerView,
                    ContractError,
                >(final(self)@) && final(self).circulating() == old(self).circulating() + amount,
                Err(e) => old(self)@.minted(sender@, recipient@, amount) == Err::<
                    LedgerView,
                    ContractError,
                >(e) && final(self)@ == old(self)@ && final(self).circulating() == old(
                    self,
                ).circulating(),
            },
            old(self)@.mint matches Some(m) && m.cap matches Some(limit) && old(
                self,
            )@.total_supply + amount > limit ==> res is Err,
    {
        let allowed = match &self.mint {
            None => {
                return Err(ContractError::MinterNotConfigured);
            },
            Some(m) => {
                if m.minter != *sender {
                    return Err(ContractError::Unauthorized);
                }
                m.cap
            },
        };
        let supply = match self.total_supply.checked_add(amount) {
            None => {
                return Err(ContractError::Overflow);
            },
            Some(s) => s,
        };
        if let Some(limit) = allowed {
            if supply > limit {
                return Err(ContractError::CapExceeded);
            }
        }
        proof {
            self.balances.lemma_amount_le_total(recipient@);
        }
        let held = match self.balances.get(&recipient) {
            Some(b) => *b,
            None => 0,
        };
        self.total_supply = supply;
        self.balances.set_amount(recipient, held + amount);
        Ok(())
    }

    /// Takes `amount` shares from `holder`. It fails, and changes nothing, where the
    /// holder has less.
    pub fn debit(&mut self, holder: String, amount: u128) -> (res: Result<(), ContractError>)
        requires
            old(self).wf(),
        ensures
            final(self).wf(),
            match res {
                Ok(_) => old(self)@.debited(holder@, amount) == Ok::<LedgerView, ContractError>(
                    final(self)@,
                ) && final(self).circulating() + amount == old(self).circulating(),
                Err(e) => old(self)@.debited(holder@, amount) == Err::<LedgerView, ContractError>(
                    e,
                ) && final(self)@ == old(self)@ && final(self).circulating() == old(
                    self,
                ).circulating(),
            },
    {
        let held = match self.balances.get(&holder) {
            Some(b) => *b,
            None => 0,
        };
        if held < amount {
            return Err(ContractError::InsufficientBalance);
        }
        self.balances.set_amount(holder, held - amount);
        Ok(())
    }

    /// Books a deposit of `value` on behalf of `depositor`: the pool grows by the value,
    /// and `minter` mints to the depositor the shares that the value is worth at the rate
    /// before the deposit. On failure nothing changes.
    pub fn issue(&mut self, minter: &String, depositor: String, value: u128) -> (res: Result<
        u128,
        ContractError,
    >)
        requires
            old(self).wf(),
        ensures
            final(self).wf(),
            match res {
                Ok(shares) => old(self)@.issued(minter@, depositor@, value) == Ok::<
                    LedgerView,
                    ContractError,
                >(final(self)@) && shares == old(self)@.shares_for(value),
                Err(e) => old(self)@.issued(minter@, depositor@, value) == Err::<
                    LedgerView,
                    ContractError,
                >(e) && final(self)@ == old(self)@,
            },
    {
        let shares = match self.redeemable(value) {
            None => {
                return Err(ContractError::Overflow);
            },
            Some(s) => s,
        };
        let pool = match self.total_pool_value.checked_add(value) {
            None => {
                return Err(ContractError::Overflow);
            },
            Some(p) => p,
        };
        let before = self.total_pool_value;
        self.total_pool_value = pool;
        match self.mint(minter, depositor, shares) {
            Ok(_) => Ok(shares),
            Err(e) => {
                self.total_pool_value = before;
                Err(e)
            },
        }
    }

    /// A copy of the ledger.
    pub fn duplicate(&self) -> (l: Self)
        requires
            self.wf(),
        ensures
            l.wf(),
            l@ == self@,
            l.circulating() == self.circulating(),
    {
        let balances = self.balances.duplicate_amounts();
        OwnershipLedger {
            total_supply: self.total_supply,
            total_pool_value: self.total_pool_value,
            balances,
            mint: self.mint.replicate(),
        }
    }
}

} // verus!
