use vstd::prelude::*;

use crate::address::Address;

verus! {

/// One account of native currency: an address and the units it holds.
pub struct Account {
    pub address: Address,
    pub lamports: u64,
}

/// The native currency held on the ledger. Every address has a balance,
/// which is zero until units are minted or moved to it. The units in
/// circulation fit in a `u64`, so no balance can overflow.
pub struct Balances {
    accounts: Vec<Account>,
    supply: u64,
}

/// The sum of the units held by the accounts of `accounts`.
spec fn total(accounts: Seq<Account>) -> nat
    decreases accounts.len(),
{
    if accounts.len() == 0 {
        0
    } else {
        total(accounts.drop_last()) + accounts.last().lamports as nat
    }
}

/// The balances after `lamports` units have left `from` for `to`. Where both
/// are one address, nothing changes.
pub open spec fn moved(balances: Map<Address, nat>, from: Address, to: Address, lamports: nat) -> Map<
    Address,
    nat,
> {
    let debited = balances.insert(from, (balances[from] - lamports) as nat);
    debited.insert(to, debited[to] + lamports)
}

/// A payment that is taken back leaves the balances as they were, and the
/// account that was paid holds enough to give the payment back.
pub proof fn lemma_moved_back(balances: Map<Address, nat>, from: Address, to: Address, lamports: nat)
    requires
        forall|a: Address| balances.dom().contains(a),
        balances[from] >= lamports,
    ensures
        moved(balances, from, to, lamports)[to] >= lamports,
        moved(moved(balances, from, to, lamports), to, from, lamports) == balances,
{
    assert(moved(moved(balances, from, to, lamports), to, from, lamports) =~= balances);
}

proof fn lemma_total_update(accounts: Seq<Account>, i: int, account: Account)
    requires
        0 <= i < accounts.len(),
    ensures
        total(accounts.update(i, account)) == total(accounts) - accounts[i].lamports
            + account.lamports,
    decreases accounts.len(),
{
    let updated = accounts.update(i, account);
    if i == accounts.len() - 1 {
        assert(updated.drop_last() =~= accounts.drop_last());
    } else {
        assert(updated.drop_last() =~= accounts.drop_last().update(i, account));
        lemma_total_update(accounts.drop_last(), i, account);
    }
}

proof fn lemma_total_push(accounts: Seq<Account>, account: Account)
    ensures
        total(accounts.push(account)) == total(accounts) + account.lamports,
{
    assert(accounts.push(account).drop_last() =~= accounts);
}

proof fn lemma_total_bounds(accounts: Seq<Account>, i: int)
    requires
        0 <= i < accounts.len(),
    ensures
        accounts[i].lamports <= total(accounts),
    decreases accounts.len(),
{
    if i < accounts.len() - 1 {
        lemma_total_bounds(accounts.drop_last(), i);
    }
}

impl View for Balances {
    type V = Map<Address, nat>;

    open spec fn view(&self) -> Map<Address, nat> {
        Map::total(|a: Address| self.balance(a))
    }
}

impl Balances {
    /// No address has two accounts, and the accounts hold what is in
    /// circulation.
    pub closed spec fn wf(&self) -> bool {
        &&& forall|i: int, j: int|
            0 <= i < j < self.accounts.len() ==> self.accounts[i].address
                != self.accounts[j].address
        &&& total(self.accounts@) == self.supply
    }

    /// The units in circulation.
    pub closed spec fn circulating(&self) -> nat {
        self.supply as nat
    }

    /// The units held at `address`.
    pub closed spec fn balance(&self, address: Address) -> nat {
        if self.holds(address) {
            self.accounts[self.slot(address)].lamports as nat
        } else {
            0
        }
    }

    spec fn holds(&self, k: Address) -> bool {
        exists|i: int| 0 <= i < self.accounts.len() && self.accounts[i].address == k
    }

    spec fn slot(&self, k: Address) -> int {
        choose|i: int| 0 <= i < self.accounts.len() && self.accounts[i].address == k
    }

    proof fn lemma_slot(&self, i: int)
        requires
            self.wf(),
            0 <= i < self.accounts.len(),
        ensures
            self.holds(self.accounts[i].address),
            self.slot(self.accounts[i].address) == i,
            self.balance(self.accounts[i].address) == self.accounts[i].lamports,
    {
        let k = self.accounts[i].address;
        let j = self.slot(k);
        assert(0 <= j < self.accounts.len() && self.accounts[j].address == k);
        if j < i {
            assert(self.accounts[j].address != self.accounts[i].address);
        } else if i < j {
            assert(self.accounts[i].address != self.accounts[j].address);
        }
    }

    /// No balance exceeds what is in circulation.
    pub proof fn lemma_balance_bounded(&self, address: Address)
        requires
            self.wf(),
        ensures
            self@[address] <= self.circulating() <= u64::MAX,
    {
        if self.holds(address) {
            lemma_total_bounds(self.accounts@, self.slot(address));
        }
    }

    /// Balances with nothing in circulation.
    pub fn new() -> (balances: Balances)
        ensures
            balances.wf(),
            balances.circulating() == 0,
            forall|a: Address| balances@[a] == 0,
    {
        Balances { accounts: Vec::new(), supply: 0 }
    }

    fn position(&self, address: &Address) -> (r: Option<usize>)
        requires
            self.wf(),
        ensures
            match r {
                Some(i) => i < self.accounts.len() && self.accounts[i as int].address == *address,
                None => !self.holds(*address),
            },
    {
        let mut i: usize = 0;
        while i < self.accounts.len()
            invariant
                i <= self.accounts.len(),
                forall|j: int| 0 <= j < i ==> self.accounts[j].address != *address,
            decreases self.accounts.len() - i,
        {
            if self.accounts[i].address.same(address) {
                return Some(i);
            }
            i += 1;
        }
        None
    }

    /// The units in circulation.
    pub fn supply(&self) -> (units: u64)
        ensures
            units == self.circulating(),
    {
        self.supply
    }

    /// The units held at `address`.
    pub fn get(&self, address: &Address) -> (units: u64)
        requires
            self.wf(),
        ensures
            units == self@[*address],
    {
        match self.position(address) {
            Some(i) => {
                proof {
                    self.lemma_slot(i as int);
                }
                self.accounts[i].lamports
            },
            None => 0,
        }
    }

    /// Replaces the balance at `address`, which changes what is in
    /// circulation by the difference.
    fn put(&mut self, address: &Address, lamports: u64)
        requires
            old(self).wf(),
            old(self).circulating() - old(self)@[*address] + lamports <= u64::MAX,
        ensures
            final(self).wf(),
            final(self).circulating() == old(self).circulating() - old(self)@[*address]
                + lamports,
            final(self)@ == old(self)@.insert(*address, lamports as nat),
    {
        let ghost before = *self;
        proof {
            before.lemma_balance_bounded(*address);
        }
        match self.position(address) {
            Some(i) => {
                proof {
                    before.lemma_slot(i as int);
                    lemma_total_update(
                        before.accounts@,
                        i as int,
                        Account { address: *address, lamports },
                    );
                }
                let held = self.accounts[i].lamports;
                self.supply = self.supply - held + lamports;
                self.accounts.set(i, Account { address: *address, lamports });
                proof {
                    assert(self.wf());
                    assert forall|k: Address| self.balance(k) == before@.insert(
                        *address,
                        lamports as nat,
                    )[k] by {
                        if before.holds(k) {
                            let j = before.slot(k);
                            assert(self.accounts[j].address == k);
                            self.lemma_slot(j);
                            before.lemma_slot(j);
                        } else if self.holds(k) {
                            let j = self.slot(k);
                            assert(before.accounts[j].address == k);
                        }
                    }
                    assert(self@ =~= before@.insert(*address, lamports as nat));
                }
            },
            None => {
                proof {
                    lemma_total_push(before.accounts@, Account { address: *address, lamports });
                }
                self.supply = self.supply + lamports;
                self.accounts.push(Account { address: *address, lamports });
                proof {
                    let n = before.accounts.len() as int;
                    assert(self.wf()) by {
                        assert forall|i: int, j: int|
                            0 <= i < j < self.accounts.len() implies self.accounts[i].address
                            != self.accounts[j].address by {
                            if j == n {
                                assert(before.accounts[i].address != *address);
                            }
                        }
                    }
                    assert forall|k: Address| self.balance(k) == before@.insert(
                        *address,
                        lamports as nat,
                    )[k] by {
                        if k == *address {
                            assert(self.accounts[n].address == k);
                            self.lemma_slot(n);
                        } else if before.holds(k) {
                            let j = before.slot(k);
                            assert(self.accounts[j].address == k);
                            self.lemma_slot(j);
                            before.lemma_slot(j);
                        } else if self.holds(k) {
                            let j = self.slot(k);
                            assert(before.accounts[j].address == k);
                        }
                    }
                    assert(self@ =~= before@.insert(*address, lamports as nat));
                }
            },
        }
    }

    /// Brings `lamports` new units into circulation at `address`. Refuses, and
    /// changes nothing, where the units in circulation would no longer fit in
    /// a `u64`.
    pub fn mint(&mut self, address: &Address, lamports: u64) -> (minted: bool)
        requires
            old(self).wf(),
        ensures
            final(self).wf(),
            minted == (old(self).circulating() + lamports <= u64::MAX),
            minted ==> final(self)@ == old(self)@.insert(
                *address,
                old(self)@[*address] + lamports as nat,
            ) && final(self).circulating() == old(self).circulating() + lamports,
            !minted ==> *final(self) == *old(self),
    {
        if lamports > u64::MAX - self.supply {
            return false;
        }
        proof {
            self.lemma_balance_bounded(*address);
        }
        let held = self.get(address);
        self.put(address, held + lamports);
        true
    }

    /// Moves `lamports` units from `from` to `to`. Refuses, and changes
    /// nothing, where `from` holds fewer. What is in circulation stays.
    pub fn transfer(&mut self, from: &Address, to: &Address, lamports: u64) -> (paid: bool)
        requires
            old(self).wf(),
        ensures
            final(self).wf(),
            paid == (old(self)@[*from] >= lamports),
            paid ==> final(self)@ == moved(old(self)@, *from, *to, lamports as nat),
            !paid ==> *final(self) == *old(self),
            final(self).circulating() == old(self).circulating(),
    {
        let held = self.get(from);
        if held < lamports {
            return false;
        }
        proof {
            self.lemma_balance_bounded(*from);
        }
        self.put(from, held - lamports);
        proof {
            self.lemma_balance_bounded(*to);
        }
        let received = self.get(to);
        self.put(to, received + lamports);
        true
    }
}

} // verus!
