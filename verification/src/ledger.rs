use std::collections::HashMap;
use vstd::prelude::*;

use crate::errors::DaoError;
use crate::types::{AccountId, Balance};

verus! {

/// A holder's balance in a balance table; accounts outside the table hold
/// nothing.
pub open spec fn balance_in(balances: Map<AccountId, Balance>, holder: AccountId) -> Balance {
    if balances.contains_key(holder) {
        balances[holder]
    } else {
        0
    }
}

/// The external fungible-token ledger the weighted variant consults. The
/// engine depends only on this interface; `balances()` abstracts an
/// implementation as its current balance table.
pub trait TokenLedger {
    spec fn balances(&self) -> Map<AccountId, Balance>;

    /// Reads the holder's current balance.
    fn balance_of(&self, holder: AccountId) -> (r: Balance)
        ensures
            r == balance_in(self.balances(), holder),
    ;

    /// Credits `amount` to `holder`: on success the holder's balance rises
    /// by exactly `amount` and no other balance changes; on refusal the
    /// table is unchanged and the error is surfaced to the caller.
    fn mint(&mut self, holder: AccountId, amount: Balance) -> (r: Result<(), DaoError>)
        ensures
            r is Ok ==> balance_in(old(self).balances(), holder) + amount <= Balance::MAX
                && final(self).balances() == old(self).balances().insert(
                holder,
                (balance_in(old(self).balances(), holder) + amount) as Balance,
            ),
            r is Err ==> final(self).balances() == old(self).balances(),
    ;
}

/// An in-process token ledger over a balance table, refusing only a credit
/// that would overflow the balance's numeric domain.
pub struct InMemoryLedger {
    table: HashMap<AccountId, Balance>,
}

impl InMemoryLedger {
    pub fn new() -> (r: InMemoryLedger)
        ensures
            r.balances() == Map::<AccountId, Balance>::empty(),
    {
        InMemoryLedger { table: HashMap::new() }
    }

    /// Overwrites one holder's balance; lets a caller lay out a ledger
    /// before handing it to the engine.
    pub fn set_balance(&mut self, holder: AccountId, amount: Balance)
        ensures
            final(self).balances() == old(self).balances().insert(holder, amount),
    {
        self.table.insert(holder, amount);
    }
}

impl TokenLedger for InMemoryLedger {
    closed spec fn balances(&self) -> Map<AccountId, Balance> {
        self.table@
    }

    fn balance_of(&self, holder: AccountId) -> (r: Balance) {
        match self.table.get(&holder) {
            Some(b) => *b,
            None => 0,
        }
    }

    fn mint(&mut self, holder: AccountId, amount: Balance) -> (r: Result<(), DaoError>) {
        let current = match self.table.get(&holder) {
            Some(b) => *b,
            None => 0,
        };
        if amount > Balance::MAX - current {
            return Err(DaoError::UpstreamRefused);
        }
        self.table.insert(holder, current + amount);
        Ok(())
    }
}

} // verus!
