use vstd::prelude::*;
use crate::spot::Identity;

verus! {

/// The external capability that moves value between identities. `transfer`
/// is meant to move exactly `amount` from `from` to `to` and report `true`,
/// or to move nothing and report `false` (insufficient funds, ledger fault).
/// The trait itself promises nothing to the verifier, so every contract of
/// the bidding core holds whatever a ledger does and however it fails.
pub trait Ledger {
    /// Attempt to move `amount` of value from `from` to `to`.
    fn transfer(&mut self, from: &Identity, to: &Identity, amount: u64) -> bool;
}

/// One account of the in-memory ledger.
#[derive(Clone, Copy, PartialEq, Eq, Structural, Debug)]
pub struct Account {
    pub owner: Identity,
    pub balance: u64,
}

/// The balance that `accounts` gives to `id`: the balance of the first
/// account owned by `id`, or 0 when `id` owns none.
spec fn balance_in(accounts: Seq<Account>, id: Identity) -> u64
    decreases accounts.len(),
{
    if accounts.len() == 0 {
        0
    } else if accounts[0].owner == id {
        accounts[0].balance
    } else {
        balance_in(accounts.drop_first(), id)
    }
}

/// A ledger held in memory: a list of accounts. Identities without an
/// account hold balance 0; depositing to or receiving at such an identity
/// opens its account.
pub struct InMemoryLedger {
    accounts: Vec<Account>,
}

impl InMemoryLedger {
    /// The balance this ledger gives to `id`.
    pub closed spec fn balance_of(&self, id: Identity) -> u64 {
        balance_in(self.accounts@, id)
    }

    /// An empty ledger: every identity holds balance 0.
    pub fn new() -> (ledger: InMemoryLedger)
        ensures
            forall|id: Identity| ledger.balance_of(id) == 0,
    {
        InMemoryLedger { accounts: Vec::new() }
    }

    /// The index of the first account owned by `id`, if `id` owns one.
    fn find_account(&self, id: &Identity) -> (r: Option<usize>)
        ensures
            match r {
                Some(i) => 0 <= i < self.accounts@.len()
                    && self.accounts@[i as int].owner == *id
                    && self.balance_of(*id) == self.accounts@[i as int].balance
                    && (forall|j: int| 0 <= j < i ==> self.accounts@[j].owner != *id),
                None => self.balance_of(*id) == 0
                    && (forall|j: int| 0 <= j < self.accounts@.len()
                            ==> self.accounts@[j].owner != *id),
            },
    {
        let n: usize = self.accounts.len();
        let mut i: usize = 0;
        while i < n
            invariant
                n == self.accounts@.len(),
                0 <= i <= n,
                forall|j: int| 0 <= j < i ==> self.accounts@[j].owner != *id,
            decreases n - i,
        {
            if self.accounts[i].owner == *id {
                proof {
                    lemma_balance_first_match(self.accounts@, *id, i as int);
                }
                return Some(i);
            }
            i = i + 1;
        }
        proof {
            lemma_balance_absent(self.accounts@, *id);
        }
        None
    }

    /// Set the balance of `id` to `balance`, leaving every other identity's
    /// balance as it was.
    fn set_balance(&mut self, id: &Identity, balance: u64)
        ensures
            final(self).balance_of(*id) == balance,
            forall|other: Identity| other != *id
                ==> final(self).balance_of(other) == old(self).balance_of(other),
    {
        let ghost before = self.accounts@;
        match self.find_account(id) {
            Some(i) => {
                let entry = &mut self.accounts[i];
                entry.balance = balance;
                proof {
                    lemma_balance_update(before, i as int, *id, balance);
                }
            }
            None => {
                self.accounts.insert(0, Account { owner: *id, balance });
                proof {
                    assert(self.accounts@[0] == (Account { owner: *id, balance }));
                    assert(self.accounts@.drop_first() =~= before);
                }
            }
        }
    }

    /// Add `amount` to the balance of `owner`, opening the account if `owner`
    /// has none yet.
    pub fn deposit(&mut self, owner: &Identity, amount: u64)
        requires
            old(self).balance_of(*owner) + amount <= u64::MAX,
        ensures
            final(self).balance_of(*owner) == old(self).balance_of(*owner) + amount,
            forall|other: Identity| other != *owner
                ==> final(self).balance_of(other) == old(self).balance_of(other),
    {
        let current: u64 = self.balance(owner);
        self.set_balance(owner, current + amount);
    }

    /// Read the balance of `id`.
    pub fn balance(&self, id: &Identity) -> (r: u64)
        ensures
            r == self.balance_of(*id),
    {
        match self.find_account(id) {
            Some(i) => self.accounts[i].balance,
            None => 0,
        }
    }
}

impl Ledger for InMemoryLedger {
    /// Succeeds exactly when `from` holds at least `amount` and the credit
    /// to `to` fits in a `u64`; on success it debits `from` and credits `to`
    /// by exactly `amount`, and on failure it changes nothing. A transfer
    /// from an identity to itself moves nothing and succeeds whenever the
    /// amount is covered.
    fn transfer(&mut self, from: &Identity, to: &Identity, amount: u64) -> (r: bool)
        ensures
            r == (old(self).balance_of(*from) >= amount
                && (*from == *to || old(self).balance_of(*to) + amount <= u64::MAX)),
            !r ==> *final(self) == *old(self),
            r && *from == *to ==> *final(self) == *old(self),
            r && *from != *to ==> final(self).balance_of(*from)
                    == old(self).balance_of(*from) - amount
                && final(self).balance_of(*to) == old(self).balance_of(*to) + amount
                && (forall|other: Identity| other != *from && other != *to
                        ==> final(self).balance_of(other) == old(self).balance_of(other)),
    {
        let available: u64 = self.balance(from);
        if available < amount {
            return false;
        }
        if *from == *to {
            return true;
        }
        let receiving: u64 = self.balance(to);
        if amount > u64::MAX - receiving {
            return false;
        }
        self.set_balance(from, available - amount);
        self.set_balance(to, receiving + amount);
        true
    }
}

/// When the first account owned by `id` stands at index `i`, the balance of
/// `id` is that account's balance.
proof fn lemma_balance_first_match(accounts: Seq<Account>, id: Identity, i: int)
    requires
        0 <= i < accounts.len(),
        accounts[i].owner == id,
        forall|j: int| 0 <= j < i ==> accounts[j].owner != id,
    ensures
        balance_in(accounts, id) == accounts[i].balance,
    decreases i,
{
    if i > 0 {
        lemma_balance_first_match(accounts.drop_first(), id, i - 1);
    }
}

/// An identity that owns no account has balance 0.
proof fn lemma_balance_absent(accounts: Seq<Account>, id: Identity)
    requires
        forall|j: int| 0 <= j < accounts.len() ==> accounts[j].owner != id,
    ensures
        balance_in(accounts, id) == 0,
    decreases accounts.len(),
{
    if accounts.len() > 0 {
        lemma_balance_absent(accounts.drop_first(), id);
    }
}

/// Rewriting the balance of the first account owned by `id` moves `id` to
/// the new balance and no other identity anywhere.
proof fn lemma_balance_update(accounts: Seq<Account>, i: int, id: Identity, balance: u64)
    requires
        0 <= i < accounts.len(),
        accounts[i].owner == id,
        forall|j: int| 0 <= j < i ==> accounts[j].owner != id,
    ensures
        balance_in(accounts.update(i, Account { owner: id, balance }), id) == balance,
        forall|other: Identity| other != id
            ==> balance_in(accounts.update(i, Account { owner: id, balance }), other)
                == balance_in(accounts, other),
    decreases i,
{
    let updated = accounts.update(i, Account { owner: id, balance });
    if i == 0 {
        assert(updated.drop_first() =~= accounts.drop_first());
        assert forall|other: Identity| other != id implies balance_in(updated, other)
            == balance_in(accounts, other) by {
            assert(balance_in(updated, other) == balance_in(updated.drop_first(), other));
            assert(balance_in(accounts, other) == balance_in(accounts.drop_first(), other));
        }
    } else {
        lemma_balance_update(accounts.drop_first(), i - 1, id, balance);
        assert(updated.drop_first() =~= accounts.drop_first().update(
            i - 1,
            Account { owner: id, balance },
        ));
        assert(updated[0] == accounts[0]);
        assert(balance_in(updated, id) == balance_in(updated.drop_first(), id));
        assert forall|other: Identity| other != id implies balance_in(updated, other)
            == balance_in(accounts, other) by {
            if accounts[0].owner != other {
                assert(balance_in(updated, other) == balance_in(updated.drop_first(), other));
                assert(balance_in(accounts, other) == balance_in(accounts.drop_first(), other));
            }
        }
    }
}

} // verus!
