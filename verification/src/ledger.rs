//! The ledger: prepaid balances, one per identity.
//!
//! The model of a ledger is a map from identities to balances. An identity
//! that the map does not hold has the balance zero.

use crate::address::Address;
use crate::amount::{u512_add, u512_is_zero, u512_lt, u512_sub, Amount};
use vstd::prelude::*;

verus! {

/// The balance that `who` has in `m`: zero for an identity that `m` does not hold.
pub open spec fn balance_in(m: Map<Address, nat>, who: Address) -> nat {
    if m.contains_key(who) {
        m[who]
    } else {
        0
    }
}

/// The ledger after `who` deposits `amount`. A deposit of zero changes nothing.
pub open spec fn deposit_in(m: Map<Address, nat>, who: Address, amount: nat) -> Map<Address, nat> {
    if amount == 0 {
        m
    } else {
        m.insert(who, balance_in(m, who) + amount)
    }
}

/// Whether `who` can pay `amount` out of the balance held in `m`.
pub open spec fn covers(m: Map<Address, nat>, who: Address, amount: nat) -> bool {
    balance_in(m, who) >= amount
}

/// The ledger after `amount` is taken from `who`. A balance that does not
/// cover the amount is left as it is.
pub open spec fn debit_in(m: Map<Address, nat>, who: Address, amount: nat) -> Map<Address, nat> {
    if covers(m, who, amount) {
        m.insert(who, (balance_in(m, who) - amount) as nat)
    } else {
        m
    }
}

/// The balance after `amount` is deposited on `balance`, or `None` where the
/// deposit is zero and nothing is to be written.
pub fn credited(balance: &Amount, amount: &Amount) -> (r: Option<Amount>)
    requires
        balance@ + amount@ <= Amount::max_value(),
    ensures
        match r {
            Some(raised) => amount@ > 0 && raised@ == balance@ + amount@,
            None => amount@ == 0,
        },
{
    if u512_is_zero(amount) {
        None
    } else {
        Some(u512_add(balance, amount))
    }
}

/// The balance after `amount` is taken from `balance`, or `None` where the
/// balance does not cover the amount.
pub fn debited(balance: &Amount, amount: &Amount) -> (r: Option<Amount>)
    ensures
        match r {
            Some(lowered) => amount@ <= balance@ && lowered@ == balance@ - amount@,
            None => balance@ < amount@,
        },
{
    if u512_lt(balance, amount) {
        None
    } else {
        Some(u512_sub(balance, amount))
    }
}

/// One identity's balance.
pub struct Account {
    pub owner: Address,
    pub balance: Amount,
}

/// Balances by identity. No identity has two accounts.
pub struct Ledger {
    accounts: Vec<Account>,
}

/// Whether some account in `accounts` belongs to `who`.
spec fn holds(accounts: Seq<Account>, who: Address) -> bool {
    exists|i: int| 0 <= i < accounts.len() && accounts[i].owner == who
}

/// The position of an account of `who` in `accounts`.
spec fn slot(accounts: Seq<Account>, who: Address) -> int {
    choose|i: int| 0 <= i < accounts.len() && accounts[i].owner == who
}

/// The map that a sequence of accounts stands for.
spec fn balances(accounts: Seq<Account>) -> Map<Address, nat> {
    Map::new(|who: Address| holds(accounts, who), |who: Address| accounts[slot(accounts, who)].balance@)
}

/// No two accounts in `accounts` have one owner.
spec fn distinct(accounts: Seq<Account>) -> bool {
    forall|i: int, j: int|
        0 <= i < j < accounts.len() ==> accounts[i].owner != accounts[j].owner
}

impl View for Ledger {
    type V = Map<Address, nat>;

    closed spec fn view(&self) -> Map<Address, nat> {
        balances(self.accounts@)
    }
}

impl Ledger {
    /// The ledger's invariant: no identity has two accounts.
    pub closed spec fn wf(&self) -> bool {
        distinct(self.accounts@)
    }

    /// The ledger that holds no balance.
    pub fn new() -> (r: Ledger)
        ensures
            r.wf(),
            r@ == Map::<Address, nat>::empty(),
    {
        let r = Ledger { accounts: Vec::new() };
        assert(r@ =~= Map::<Address, nat>::empty());
        r
    }

    /// The position of the account of `who`, if there is one.
    fn find(&self, who: &Address) -> (r: Option<usize>)
        requires
            self.wf(),
        ensures
            match r {
                Some(i) => i < self.accounts@.len() && self.accounts@[i as int].owner == *who
                    && slot(self.accounts@, *who) == i && holds(self.accounts@, *who),
                None => !holds(self.accounts@, *who),
            },
    {
        let mut i: usize = 0;
        while i < self.accounts.len()
            invariant
                i <= self.accounts@.len(),
                distinct(self.accounts@),
                forall|j: int| 0 <= j < i ==> self.accounts@[j].owner != *who,
            decreases self.accounts@.len() - i,
        {
            if self.accounts[i].owner == *who {
                proof {
                    let k = slot(self.accounts@, *who);
                    assert(self.accounts@[i as int].owner == *who);
                    assert(k == i) by {
                        if k < i {
                            assert(self.accounts@[k].owner != self.accounts@[i as int].owner);
                        }
                        if i < k {
                            assert(self.accounts@[i as int].owner != self.accounts@[k].owner);
                        }
                    }
                }
                return Some(i);
            }
            i += 1;
        }
        None
    }

    /// Writes `value` as the balance of `who`.
    fn put(&mut self, who: &Address, value: Amount)
        requires
            old(self).wf(),
        ensures
            final(self).wf(),
            final(self)@ == old(self)@.insert(*who, value@),
    {
        let found = self.find(who);
        let ghost before = self.accounts@;
        match found {
            Some(i) => {
                self.accounts.set(i, Account { owner: *who, balance: value });
            },
            None => {
                self.accounts.push(Account { owner: *who, balance: value });
            },
        }
        proof {
            let after = self.accounts@;
            let at: int = match found {
                Some(i) => i as int,
                None => before.len() as int,
            };
            assert(after[at].owner == *who && after[at].balance == value);
            assert(forall|j: int| 0 <= j < after.len() && j != at ==> after[j] == before[j]);
            assert(distinct(after));
            assert forall|a: Address| holds(after, a) <==> (a == *who || holds(before, a)) by {
                if holds(after, a) && a != *who {
                    let j = slot(after, a);
                    assert(before[j].owner == a);
                }
                if holds(before, a) {
                    let j = slot(before, a);
                    assert(after[j].owner == a);
                }
            }
            assert forall|a: Address| holds(after, a) implies #[trigger] balances(after)[a]
                == old(self)@.insert(*who, value@)[a] by {
                let j = slot(after, a);
                if a != *who {
                    assert(before[j].owner == a);
                    assert(slot(before, a) == j);
                }
            }
            assert(balances(after) =~= old(self)@.insert(*who, value@));
        }
    }

    /// The balance of `owner`: zero for an identity without an account.
    pub fn get_balance(&self, owner: &Address) -> (r: Amount)
        requires
            self.wf(),
        ensures
            r@ == balance_in(self@, *owner),
    {
        match self.find(owner) {
            Some(i) => self.accounts[i].balance,
            None => Amount::zero(),
        }
    }

    /// Credits `amount` to `who`. A deposit of zero changes nothing.
    pub fn deposit(&mut self, who: &Address, amount: &Amount)
        requires
            old(self).wf(),
            balance_in(old(self)@, *who) + amount@ <= Amount::max_value(),
        ensures
            final(self).wf(),
            final(self)@ == deposit_in(old(self)@, *who, amount@),
    {
        let current = self.get_balance(who);
        match credited(&current, amount) {
            Some(raised) => self.put(who, raised),
            None => {},
        }
    }

    /// Takes `amount` from `who` if the balance covers it, and says whether
    /// it did. A balance that does not cover the amount is left as it is.
    pub fn debit(&mut self, who: &Address, amount: &Amount) -> (r: bool)
        requires
            old(self).wf(),
        ensures
            final(self).wf(),
            r == covers(old(self)@, *who, amount@),
            final(self)@ == debit_in(old(self)@, *who, amount@),
    {
        let current = self.get_balance(who);
        match debited(&current, amount) {
            Some(lowered) => {
                self.put(who, lowered);
                true
            },
            None => false,
        }
    }
}

} // verus!
