//! An in-memory asset ledger: a concrete, fully verified implementation of
//! the ledger capability, suitable as a test double for the migration
//! operation.
//!
//! Balances are held as a list of holdings, one per (asset, account) pair.
//! The representation invariant keeps the pairs unique, so the balance of a
//! pair is the amount of its single holding, or zero where none exists.

use crate::account::AccountId;
use crate::errors::LedgerError;
use crate::ledger::{AssetId, Ledger};
use vstd::prelude::*;

verus! {

/// One ledger entry: the balance an account holds in one asset.
#[derive(Clone, Copy, Debug)]
pub struct Holding {
    pub asset: AssetId,
    pub account: AccountId,
    pub amount: u128,
}

/// The balance recorded for `(asset, who)` in a list of holdings: the amount
/// of the first holding with that pair, or zero where none exists.
pub open spec fn balance_in(s: Seq<Holding>, asset: AssetId, who: AccountId) -> u128
    decreases s.len(),
{
    if s.len() == 0 {
        0
    } else if s[0].asset == asset && s[0].account == who {
        s[0].amount
    } else {
        balance_in(s.skip(1), asset, who)
    }
}

/// Whether some holding records the pair `(asset, who)`.
pub open spec fn has_holding(s: Seq<Holding>, asset: AssetId, who: AccountId) -> bool {
    exists|i: int| 0 <= i < s.len() && s[i].asset == asset && s[i].account == who
}

/// No two holdings record the same (asset, account) pair.
pub open spec fn wf_holdings(s: Seq<Holding>) -> bool {
    forall|i: int, j: int|
        0 <= i < j < s.len() ==> !(s[i].asset == s[j].asset && s[i].account == s[j].account)
}

proof fn lemma_wf_skip(s: Seq<Holding>)
    requires
        wf_holdings(s),
        s.len() > 0,
    ensures
        wf_holdings(s.skip(1)),
{
    assert forall|a: int, b: int| 0 <= a < b < s.skip(1).len() implies !(s.skip(1)[a].asset
        == s.skip(1)[b].asset && s.skip(1)[a].account == s.skip(1)[b].account) by {
        assert(s.skip(1)[a] == s[a + 1]);
        assert(s.skip(1)[b] == s[b + 1]);
    }
}

proof fn lemma_balance_absent(s: Seq<Holding>, asset: AssetId, who: AccountId)
    requires
        !has_holding(s, asset, who),
    ensures
        balance_in(s, asset, who) == 0,
    decreases s.len(),
{
    if s.len() > 0 {
        assert(!(s[0].asset == asset && s[0].account == who));
        assert(!has_holding(s.skip(1), asset, who)) by {
            if has_holding(s.skip(1), asset, who) {
                let i = choose|i: int|
                    0 <= i < s.skip(1).len() && s.skip(1)[i].asset == asset && s.skip(1)[i].account
                        == who;
                assert(s.skip(1)[i] == s[i + 1]);
                assert(s[i + 1].asset == asset && s[i + 1].account == who);
            }
        }
        lemma_balance_absent(s.skip(1), asset, who);
    }
}

proof fn lemma_balance_at(s: Seq<Holding>, i: int, asset: AssetId, who: AccountId)
    requires
        wf_holdings(s),
        0 <= i < s.len(),
        s[i].asset == asset,
        s[i].account == who,
    ensures
        balance_in(s, asset, who) == s[i].amount,
    decreases s.len(),
{
    if i > 0 {
        assert(!(s[0].asset == s[i].asset && s[0].account == s[i].account));
        lemma_wf_skip(s);
        assert(s.skip(1)[i - 1] == s[i]);
        lemma_balance_at(s.skip(1), i - 1, asset, who);
    }
}

proof fn lemma_balance_update(s: Seq<Holding>, i: int, h: Holding)
    requires
        wf_holdings(s),
        0 <= i < s.len(),
        s[i].asset == h.asset,
        s[i].account == h.account,
    ensures
        wf_holdings(s.update(i, h)),
        forall|a: AssetId, w: AccountId| #![auto]
            balance_in(s.update(i, h), a, w) == if a == h.asset && w == h.account {
                h.amount
            } else {
                balance_in(s, a, w)
            },
{
    let t = s.update(i, h);
    assert(forall|k: int| 0 <= k < s.len() && k != i ==> t[k] == s[k]);
    assert(t[i] == h);
    assert(wf_holdings(t)) by {
        assert forall|a: int, b: int| 0 <= a < b < t.len() implies !(t[a].asset == t[b].asset
            && t[a].account == t[b].account) by {
            assert(t[a].asset == s[a].asset && t[a].account == s[a].account);
            assert(t[b].asset == s[b].asset && t[b].account == s[b].account);
        }
    }
    assert forall|a: AssetId, w: AccountId| #![auto]
        balance_in(t, a, w) == (if a == h.asset && w == h.account {
            h.amount
        } else {
            balance_in(s, a, w)
        }) by {
        if a == h.asset && w == h.account {
            lemma_balance_at(t, i, a, w);
        } else {
            if has_holding(s, a, w) {
                let j = choose|j: int|
                    0 <= j < s.len() && s[j].asset == a && s[j].account == w;
                assert(j != i);
                assert(t[j] == s[j]);
                lemma_balance_at(s, j, a, w);
                lemma_balance_at(t, j, a, w);
            } else {
                assert(!has_holding(t, a, w)) by {
                    if has_holding(t, a, w) {
                        let k = choose|k: int|
                            0 <= k < t.len() && t[k].asset == a && t[k].account == w;
                        assert(k != i);
                        assert(s[k].asset == a && s[k].account == w);
                    }
                }
                lemma_balance_absent(s, a, w);
                lemma_balance_absent(t, a, w);
            }
        }
    }
}

proof fn lemma_balance_push(s: Seq<Holding>, h: Holding)
    requires
        wf_holdings(s),
        !has_holding(s, h.asset, h.account),
    ensures
        wf_holdings(s.push(h)),
        forall|a: AssetId, w: AccountId| #![auto]
            balance_in(s.push(h), a, w) == if a == h.asset && w == h.account {
                h.amount
            } else {
                balance_in(s, a, w)
            },
{
    let t = s.push(h);
    assert(forall|k: int| 0 <= k < s.len() ==> t[k] == s[k]);
    assert(t[s.len() as int] == h);
    assert(wf_holdings(t)) by {
        assert forall|a: int, b: int| 0 <= a < b < t.len() implies !(t[a].asset == t[b].asset
            && t[a].account == t[b].account) by {
            if b < s.len() {
                assert(t[a] == s[a] && t[b] == s[b]);
            } else {
                assert(t[b] == h);
                assert(t[a] == s[a]);
                if s[a].asset == h.asset && s[a].account == h.account {
                    assert(has_holding(s, h.asset, h.account));
                }
            }
        }
    }
    assert forall|a: AssetId, w: AccountId| #![auto]
        balance_in(t, a, w) == (if a == h.asset && w == h.account {
            h.amount
        } else {
            balance_in(s, a, w)
        }) by {
        if a == h.asset && w == h.account {
            lemma_balance_at(t, s.len() as int, a, w);
        } else {
            if has_holding(s, a, w) {
                let j = choose|j: int|
                    0 <= j < s.len() && s[j].asset == a && s[j].account == w;
                assert(t[j] == s[j]);
                lemma_balance_at(s, j, a, w);
                lemma_balance_at(t, j, a, w);
            } else {
                assert(!has_holding(t, a, w)) by {
                    if has_holding(t, a, w) {
                        let k = choose|k: int|
                            0 <= k < t.len() && t[k].asset == a && t[k].account == w;
                        assert(k < s.len());
                        assert(s[k].asset == a && s[k].account == w);
                    }
                }
                lemma_balance_absent(s, a, w);
                lemma_balance_absent(t, a, w);
            }
        }
    }
}

/// An asset ledger held entirely in memory.
#[derive(Debug)]
pub struct InMemoryLedger {
    holdings: Vec<Holding>,
}

impl InMemoryLedger {
    /// An empty ledger: every account holds zero in every asset.
    pub fn new() -> (r: InMemoryLedger)
        ensures
            r.wf(),
            forall|a: AssetId, w: AccountId| r.spec_balance(a, w) == 0,
    {
        InMemoryLedger { holdings: Vec::new() }
    }

    /// The index of the holding for `(asset, who)`, if one exists.
    fn find(holdings: &Vec<Holding>, asset: AssetId, who: AccountId) -> (r: Option<usize>)
        ensures
            match r {
                Some(i) => i < holdings@.len() && holdings@[i as int].asset == asset
                    && holdings@[i as int].account == who,
                None => !has_holding(holdings@, asset, who),
            },
    {
        let mut i: usize = 0;
        while i < holdings.len()
            invariant
                i <= holdings@.len(),
                forall|j: int|
                    0 <= j < i ==> !(holdings@[j].asset == asset && holdings@[j].account == who),
            decreases holdings@.len() - i,
        {
            let h = holdings[i];
            if h.asset == asset && h.account == who {
                return Some(i);
            }
            i = i + 1;
        }
        None
    }

    /// Records `new_amount` as the balance of `(asset, who)`, leaving every
    /// other pair as it was.
    fn set_balance(&mut self, asset: AssetId, who: AccountId, new_amount: u128)
        requires
            old(self).wf(),
        ensures
            final(self).wf(),
            final(self).spec_balance(asset, who) == new_amount,
            forall|a2: AssetId, w2: AccountId|
                a2 != asset || w2 != who ==> final(self).spec_balance(a2, w2) == old(
                    self,
                ).spec_balance(a2, w2),
    {
        let h = Holding { asset, account: who, amount: new_amount };
        match Self::find(&self.holdings, asset, who) {
            Some(i) => {
                proof {
                    lemma_balance_update(self.holdings@, i as int, h);
                }
                self.holdings[i] = h;
            },
            None => {
                proof {
                    lemma_balance_push(self.holdings@, h);
                }
                self.holdings.push(h);
            },
        }
    }

    /// Credits `who` with `amount` native units of `asset`, failing only when
    /// the credited balance would overflow. Intended for test and benchmark
    /// setup; the migration operation itself never mints.
    pub fn mint_into(&mut self, asset: AssetId, who: AccountId, amount: u128) -> (r: Result<
        (),
        LedgerError,
    >)
        requires
            old(self).wf(),
        ensures
            final(self).wf(),
            r is Ok <==> old(self).spec_balance(asset, who) + amount <= u128::MAX,
            r is Err ==> *final(self) == *old(self) && r == Err::<(), LedgerError>(
                LedgerError::Overflow,
            ),
            r is Ok ==> final(self).spec_balance(asset, who) == old(self).spec_balance(
                asset,
                who,
            ) + amount,
            r is Ok ==> forall|a2: AssetId, w2: AccountId|
                a2 != asset || w2 != who ==> final(self).spec_balance(a2, w2) == old(
                    self,
                ).spec_balance(a2, w2),
    {
        let bal = self.balance(asset, who);
        if amount > u128::MAX - bal {
            return Err(LedgerError::Overflow);
        }
        self.set_balance(asset, who, bal + amount);
        Ok(())
    }
}

impl Ledger for InMemoryLedger {
    closed spec fn wf(&self) -> bool {
        wf_holdings(self.holdings@)
    }

    closed spec fn spec_balance(&self, asset: AssetId, who: AccountId) -> u128 {
        balance_in(self.holdings@, asset, who)
    }

    /// This ledger applies a transfer exactly when the debited account holds
    /// the amount and the credited balance would not overflow. It imposes no
    /// existential deposit, so `keep_alive` never rejects a transfer.
    open spec fn spec_transfer_ok(
        &self,
        asset: AssetId,
        from: AccountId,
        to: AccountId,
        amount: u128,
        keep_alive: bool,
    ) -> bool {
        amount <= self.spec_balance(asset, from) && (from == to || self.spec_balance(asset, to)
            + amount <= u128::MAX)
    }

    open spec fn spec_transfer_err(
        &self,
        asset: AssetId,
        from: AccountId,
        to: AccountId,
        amount: u128,
        keep_alive: bool,
    ) -> LedgerError {
        if amount > self.spec_balance(asset, from) {
            LedgerError::InsufficientBalance
        } else {
            LedgerError::Overflow
        }
    }

    fn balance(&self, asset: AssetId, who: AccountId) -> (r: u128) {
        match Self::find(&self.holdings, asset, who) {
            Some(i) => {
                proof {
                    lemma_balance_at(self.holdings@, i as int, asset, who);
                }
                let h = self.holdings[i];
                h.amount
            },
            None => {
                proof {
                    lemma_balance_absent(self.holdings@, asset, who);
                }
                0
            },
        }
    }

    fn transfer(
        &mut self,
        asset: AssetId,
        from: AccountId,
        to: AccountId,
        amount: u128,
        keep_alive: bool,
    ) -> (r: Result<(), LedgerError>) {
        let from_bal = self.balance(asset, from);
        if amount > from_bal {
            return Err(LedgerError::InsufficientBalance);
        }
        if from == to {
            return Ok(());
        }
        let to_bal = self.balance(asset, to);
        if amount > u128::MAX - to_bal {
            return Err(LedgerError::Overflow);
        }
        self.set_balance(asset, from, from_bal - amount);
        self.set_balance(asset, to, to_bal + amount);
        Ok(())
    }
}

} // verus!
