//! The liquidity ledger: per-provider share balances.
//!
//! Entries are created lazily on a provider's first deposit and keyed by the
//! provider's identity. The exchange keeps `total_shares` equal to the sum of
//! all entries, which this module's lemmas track across every mutation.

use vstd::prelude::*;

verus! {

/// One provider's share balance.
#[derive(Clone, Copy, PartialEq, Eq, Structural, Debug)]
pub struct LedgerEntry {
    pub account: u64,
    pub shares: i128,
}

/// The sum of all share balances in the ledger.
pub open spec fn sum_shares(s: Seq<LedgerEntry>) -> int
    decreases s.len(),
{
    if s.len() == 0 {
        0
    } else {
        s[0].shares + sum_shares(s.drop_first())
    }
}

/// The share balance of `account`: the balance of its first entry, or zero
/// when it has none.
pub open spec fn balance_of(s: Seq<LedgerEntry>, account: u64) -> int
    decreases s.len(),
{
    if s.len() == 0 {
        0
    } else if s[0].account == account {
        s[0].shares as int
    } else {
        balance_of(s.drop_first(), account)
    }
}

/// No two entries share an account.
pub open spec fn unique_accounts(s: Seq<LedgerEntry>) -> bool {
    forall|i: int, j: int|
        #![trigger s[i], s[j]]
        0 <= i < j < s.len() ==> s[i].account != s[j].account
}

/// Every entry's balance is non-negative.
pub open spec fn nonneg_shares(s: Seq<LedgerEntry>) -> bool {
    forall|i: int| 0 <= i < s.len() ==> (#[trigger] s[i]).shares >= 0
}

pub proof fn lemma_sum_nonneg(s: Seq<LedgerEntry>)
    requires
        nonneg_shares(s),
    ensures
        sum_shares(s) >= 0,
    decreases s.len(),
{
    if s.len() > 0 {
        assert(nonneg_shares(s.drop_first())) by {
            assert forall|i: int| 0 <= i < s.drop_first().len() implies (#[trigger] s.drop_first()[i]).shares
                >= 0 by {
                assert(s.drop_first()[i] == s[i + 1]);
            }
        }
        lemma_sum_nonneg(s.drop_first());
    }
}

pub proof fn lemma_balance_le_sum(s: Seq<LedgerEntry>, account: u64)
    requires
        nonneg_shares(s),
    ensures
        0 <= balance_of(s, account) <= sum_shares(s),
    decreases s.len(),
{
    if s.len() > 0 {
        assert(nonneg_shares(s.drop_first())) by {
            assert forall|i: int| 0 <= i < s.drop_first().len() implies (#[trigger] s.drop_first()[i]).shares
                >= 0 by {
                assert(s.drop_first()[i] == s[i + 1]);
            }
        }
        lemma_sum_nonneg(s.drop_first());
        lemma_balance_le_sum(s.drop_first(), account);
    }
}

proof fn lemma_unique_drop_first(s: Seq<LedgerEntry>)
    requires
        unique_accounts(s),
        s.len() > 0,
    ensures
        unique_accounts(s.drop_first()),
{
    assert forall|i: int, j: int|
        0 <= i < j < s.drop_first().len() implies #[trigger] s.drop_first()[i].account
        != #[trigger] s.drop_first()[j].account by {
        assert(s.drop_first()[i] == s[i + 1]);
        assert(s.drop_first()[j] == s[j + 1]);
    }
}

/// The balance of `account` is the balance of the entry a scan from the
/// front finds first.
proof fn lemma_balance_of_found(s: Seq<LedgerEntry>, account: u64, i: int)
    requires
        0 <= i < s.len(),
        s[i].account == account,
        forall|j: int| 0 <= j < i ==> s[j].account != account,
    ensures
        balance_of(s, account) == s[i].shares,
    decreases i,
{
    if i > 0 {
        assert forall|j: int| 0 <= j < i - 1 implies s.drop_first()[j].account != account by {
            assert(s.drop_first()[j] == s[j + 1]);
        }
        assert(s.drop_first()[i - 1] == s[i]);
        lemma_balance_of_found(s.drop_first(), account, i - 1);
    }
}

proof fn lemma_balance_of_absent(s: Seq<LedgerEntry>, account: u64)
    requires
        forall|j: int| 0 <= j < s.len() ==> s[j].account != account,
    ensures
        balance_of(s, account) == 0,
    decreases s.len(),
{
    if s.len() > 0 {
        assert forall|j: int| 0 <= j < s.drop_first().len() implies s.drop_first()[j].account
            != account by {
            assert(s.drop_first()[j] == s[j + 1]);
        }
        lemma_balance_of_absent(s.drop_first(), account);
    }
}

proof fn lemma_sum_of_update(s: Seq<LedgerEntry>, i: int, e: LedgerEntry)
    requires
        0 <= i < s.len(),
    ensures
        sum_shares(s.update(i, e)) == sum_shares(s) - s[i].shares + e.shares,
    decreases i,
{
    let t = s.update(i, e);
    if i == 0 {
        assert(t.drop_first() =~= s.drop_first());
    } else {
        assert(t.drop_first() =~= s.drop_first().update(i - 1, e));
        lemma_sum_of_update(s.drop_first(), i - 1, e);
    }
}

proof fn lemma_balance_of_update(s: Seq<LedgerEntry>, i: int, e: LedgerEntry)
    requires
        0 <= i < s.len(),
        e.account == s[i].account,
        unique_accounts(s),
    ensures
        balance_of(s.update(i, e), e.account) == e.shares,
        forall|b: u64|
            b != e.account ==> balance_of(s.update(i, e), b) == balance_of(s, b),
    decreases i,
{
    let t = s.update(i, e);
    if i == 0 {
        assert(t.drop_first() =~= s.drop_first());
        assert forall|b: u64| b != e.account implies balance_of(t, b) == balance_of(s, b) by {
            assert(balance_of(t, b) == balance_of(t.drop_first(), b));
            assert(balance_of(s, b) == balance_of(s.drop_first(), b));
        }
    } else {
        assert(t.drop_first() =~= s.drop_first().update(i - 1, e));
        lemma_unique_drop_first(s);
        assert(s.drop_first()[i - 1] == s[i]);
        lemma_balance_of_update(s.drop_first(), i - 1, e);
        assert(s[0].account != e.account);
        assert(balance_of(t, e.account) == e.shares);
        assert forall|b: u64| b != e.account implies balance_of(t, b) == balance_of(s, b) by {
            if s[0].account == b {
                assert(balance_of(t, b) == t[0].shares);
                assert(balance_of(s, b) == s[0].shares);
            } else {
                assert(balance_of(t, b) == balance_of(t.drop_first(), b));
                assert(balance_of(s, b) == balance_of(s.drop_first(), b));
            }
        }
    }
}

proof fn lemma_sum_of_push(s: Seq<LedgerEntry>, e: LedgerEntry)
    ensures
        sum_shares(s.push(e)) == sum_shares(s) + e.shares,
    decreases s.len(),
{
    let t = s.push(e);
    if s.len() == 0 {
        assert(t.drop_first() =~= Seq::<LedgerEntry>::empty());
        assert(sum_shares(t.drop_first()) == 0);
        assert(t[0] == e);
    } else {
        assert(t.drop_first() =~= s.drop_first().push(e));
        lemma_sum_of_push(s.drop_first(), e);
        assert(t[0] == s[0]);
    }
}

proof fn lemma_balance_of_push(s: Seq<LedgerEntry>, e: LedgerEntry)
    requires
        forall|j: int| 0 <= j < s.len() ==> s[j].account != e.account,
    ensures
        balance_of(s.push(e), e.account) == e.shares,
        forall|b: u64| b != e.account ==> balance_of(s.push(e), b) == balance_of(s, b),
    decreases s.len(),
{
    let t = s.push(e);
    if s.len() == 0 {
        assert(t.drop_first() =~= Seq::<LedgerEntry>::empty());
        assert(t[0] == e);
        assert forall|b: u64| b != e.account implies balance_of(t, b) == balance_of(s, b) by {
            assert(balance_of(t, b) == balance_of(t.drop_first(), b));
            assert(balance_of(t.drop_first(), b) == 0);
        }
    } else {
        assert(t.drop_first() =~= s.drop_first().push(e));
        assert forall|j: int| 0 <= j < s.drop_first().len() implies s.drop_first()[j].account
            != e.account by {
            assert(s.drop_first()[j] == s[j + 1]);
        }
        lemma_balance_of_push(s.drop_first(), e);
        assert(t[0] == s[0]);
        assert(s[0].account != e.account);
        assert(balance_of(t, e.account) == balance_of(t.drop_first(), e.account));
        assert forall|b: u64| b != e.account implies balance_of(t, b) == balance_of(s, b) by {
            if s[0].account == b {
                assert(balance_of(t, b) == t[0].shares);
            } else {
                assert(balance_of(t, b) == balance_of(t.drop_first(), b));
                assert(balance_of(s, b) == balance_of(s.drop_first(), b));
            }
        }
    }
}

proof fn lemma_unique_nonneg_update(s: Seq<LedgerEntry>, i: int, e: LedgerEntry)
    requires
        0 <= i < s.len(),
        e.account == s[i].account,
        e.shares >= 0,
        unique_accounts(s),
        nonneg_shares(s),
    ensures
        unique_accounts(s.update(i, e)),
        nonneg_shares(s.update(i, e)),
{
    let t = s.update(i, e);
    assert forall|a: int, b: int|
        #![trigger t[a], t[b]]
        0 <= a < b < t.len() implies t[a].account != t[b].account by {
        assert(t[a].account == s[a].account);
        assert(t[b].account == s[b].account);
    }
    assert forall|a: int| 0 <= a < t.len() implies (#[trigger] t[a]).shares >= 0 by {
        if a != i {
            assert(t[a] == s[a]);
        }
    }
}

proof fn lemma_unique_nonneg_push(s: Seq<LedgerEntry>, e: LedgerEntry)
    requires
        forall|j: int| 0 <= j < s.len() ==> s[j].account != e.account,
        e.shares >= 0,
        unique_accounts(s),
        nonneg_shares(s),
    ensures
        unique_accounts(s.push(e)),
        nonneg_shares(s.push(e)),
{
    let t = s.push(e);
    assert forall|a: int, b: int|
        #![trigger t[a], t[b]]
        0 <= a < b < t.len() implies t[a].account != t[b].account by {
        if b < s.len() {
            assert(t[a] == s[a]);
            assert(t[b] == s[b]);
        } else {
            assert(t[a] == s[a]);
            assert(t[b] == e);
        }
    }
    assert forall|a: int| 0 <= a < t.len() implies (#[trigger] t[a]).shares >= 0 by {
        if a < s.len() {
            assert(t[a] == s[a]);
        } else {
            assert(t[a] == e);
        }
    }
}

/// Index of the entry of `account`, if it has one.
fn lookup(v: &Vec<LedgerEntry>, account: u64) -> (r: Option<usize>)
    ensures
        match r {
            Some(i) => i < v@.len() && v@[i as int].account == account && (forall|j: int|
                0 <= j < i ==> v@[j].account != account),
            None => forall|j: int| 0 <= j < v@.len() ==> v@[j].account != account,
        },
{
    let mut i: usize = 0;
    while i < v.len()
        invariant
            i <= v@.len(),
            forall|j: int| 0 <= j < i ==> v@[j].account != account,
        decreases v@.len() - i,
    {
        if v[i].account == account {
            return Some(i);
        }
        i = i + 1;
    }
    None
}

/// The share balance of `account`, zero when it has no entry.
pub fn balance(v: &Vec<LedgerEntry>, account: u64) -> (r: i128)
    ensures
        r == balance_of(v@, account),
{
    match lookup(v, account) {
        Some(i) => {
            proof {
                lemma_balance_of_found(v@, account, i as int);
            }
            v[i].shares
        },
        None => {
            proof {
                lemma_balance_of_absent(v@, account);
            }
            0
        },
    }
}

/// Adds `amount` shares to the balance of `account`, creating its entry on
/// first use.
pub fn credit(v: &mut Vec<LedgerEntry>, account: u64, amount: i128)
    requires
        unique_accounts(old(v)@),
        nonneg_shares(old(v)@),
        amount >= 0,
        balance_of(old(v)@, account) + amount <= i128::MAX,
    ensures
        unique_accounts(final(v)@),
        nonneg_shares(final(v)@),
        sum_shares(final(v)@) == sum_shares(old(v)@) + amount,
        balance_of(final(v)@, account) == balance_of(old(v)@, account) + amount,
        forall|b: u64| b != account ==> balance_of(final(v)@, b) == balance_of(old(v)@, b),
{
    match lookup(v, account) {
        Some(i) => {
            proof {
                lemma_balance_of_found(v@, account, i as int);
            }
            let cur = v[i].shares;
            let e = LedgerEntry { account, shares: cur + amount };
            proof {
                lemma_sum_of_update(v@, i as int, e);
                lemma_balance_of_update(v@, i as int, e);
                lemma_unique_nonneg_update(v@, i as int, e);
            }
            v[i] = e;
        },
        None => {
            proof {
                lemma_balance_of_absent(v@, account);
            }
            let e = LedgerEntry { account, shares: amount };
            proof {
                lemma_sum_of_push(v@, e);
                lemma_balance_of_push(v@, e);
                lemma_unique_nonneg_push(v@, e);
            }
            v.push(e);
        },
    }
}

/// Removes `amount` shares from the balance of `account`. The entry stays,
/// possibly at zero.
pub fn debit(v: &mut Vec<LedgerEntry>, account: u64, amount: i128)
    requires
        unique_accounts(old(v)@),
        nonneg_shares(old(v)@),
        0 <= amount <= balance_of(old(v)@, account),
    ensures
        unique_accounts(final(v)@),
        nonneg_shares(final(v)@),
        sum_shares(final(v)@) == sum_shares(old(v)@) - amount,
        balance_of(final(v)@, account) == balance_of(old(v)@, account) - amount,
        forall|b: u64| b != account ==> balance_of(final(v)@, b) == balance_of(old(v)@, b),
{
    match lookup(v, account) {
        Some(i) => {
            proof {
                lemma_balance_of_found(v@, account, i as int);
            }
            let cur = v[i].shares;
            let e = LedgerEntry { account, shares: cur - amount };
            proof {
                lemma_sum_of_update(v@, i as int, e);
                lemma_balance_of_update(v@, i as int, e);
                lemma_unique_nonneg_update(v@, i as int, e);
            }
            v[i] = e;
        },
        None => {
            proof {
                lemma_balance_of_absent(v@, account);
            }
        },
    }
}

} // verus!
