use vstd::prelude::*;
use crate::address::Address;
use crate::uint::U256;

verus! {

/// One account's balance.
#[derive(Clone, Copy, Debug)]
pub struct Holding {
    pub account: Address,
    pub amount: U256,
}

/// The sum of all amounts held.
pub open spec fn sum_of(s: Seq<Holding>) -> nat
    decreases s.len(),
{
    if s.len() == 0 {
        0
    } else {
        sum_of(s.drop_last()) + s.last().amount@
    }
}

/// What `a` holds: the amount of its entry, or zero without one.
pub open spec fn balance_in(s: Seq<Holding>, a: Address) -> nat
    decreases s.len(),
{
    if s.len() == 0 {
        0
    } else if s.last().account == a {
        s.last().amount@
    } else {
        balance_in(s.drop_last(), a)
    }
}

/// No account has two entries.
pub open spec fn holders_unique(s: Seq<Holding>) -> bool {
    forall|i: int, j: int| 0 <= i < j < s.len() ==> s[i].account != s[j].account
}

pub proof fn lemma_balance_le_sum(s: Seq<Holding>, a: Address)
    ensures
        balance_in(s, a) <= sum_of(s),
    decreases s.len(),
{
    if s.len() > 0 {
        lemma_balance_le_sum(s.drop_last(), a);
    }
}

pub proof fn lemma_balance_absent(s: Seq<Holding>, a: Address)
    requires
        forall|i: int| 0 <= i < s.len() ==> s[i].account != a,
    ensures
        balance_in(s, a) == 0,
    decreases s.len(),
{
    if s.len() > 0 {
        lemma_balance_absent(s.drop_last(), a);
    }
}

pub proof fn lemma_balance_at(s: Seq<Holding>, i: int)
    requires
        holders_unique(s),
        0 <= i < s.len(),
    ensures
        balance_in(s, s[i].account) == s[i].amount@,
    decreases s.len(),
{
    if i < s.len() - 1 {
        assert(s.drop_last()[i] == s[i]);
        lemma_balance_at(s.drop_last(), i);
    }
}

/// Replacing the amount of entry `i` moves the sum by the difference and
/// changes no other account's balance.
pub proof fn lemma_update(s: Seq<Holding>, i: int, h: Holding)
    requires
        holders_unique(s),
        0 <= i < s.len(),
        h.account == s[i].account,
    ensures
        sum_of(s.update(i, h)) == sum_of(s) - s[i].amount@ + h.amount@,
        holders_unique(s.update(i, h)),
        forall|a: Address| #[trigger] balance_in(s.update(i, h), a)
            == if a == h.account { h.amount@ } else { balance_in(s, a) },
    decreases s.len(),
{
    let t = s.update(i, h);
    assert(holders_unique(t)) by {
        assert forall|x: int, y: int| 0 <= x < y < t.len() implies t[x].account != t[y].account by {
            assert(s[x].account != s[y].account);
        }
    }
    if i == s.len() - 1 {
        assert(t.drop_last() =~= s.drop_last());
        assert forall|a: Address| #[trigger] balance_in(t, a)
            == if a == h.account { h.amount@ } else { balance_in(s, a) } by {
        }
    } else {
        let d = s.drop_last();
        assert(t.drop_last() =~= d.update(i, h));
        assert(holders_unique(d));
        assert(d[i] == s[i]);
        lemma_update(d, i, h);
        assert forall|a: Address| #[trigger] balance_in(t, a)
            == if a == h.account { h.amount@ } else { balance_in(s, a) } by {
            assert(t.last() == s.last());
            assert(balance_in(d.update(i, h), a) == if a == h.account { h.amount@ } else {
                balance_in(d, a)
            });
            if s.last().account == a {
                assert(s[i].account != s[s.len() - 1].account);
            }
        }
    }
}

/// Appending an entry adds its amount to the sum and gives its account
/// that amount.
pub proof fn lemma_push(s: Seq<Holding>, h: Holding)
    requires
        holders_unique(s),
        forall|i: int| 0 <= i < s.len() ==> s[i].account != h.account,
    ensures
        sum_of(s.push(h)) == sum_of(s) + h.amount@,
        holders_unique(s.push(h)),
        forall|a: Address| #[trigger] balance_in(s.push(h), a)
            == if a == h.account { h.amount@ } else { balance_in(s, a) },
{
    let t = s.push(h);
    assert(t.drop_last() =~= s);
    assert forall|a: Address| #[trigger] balance_in(t, a)
        == if a == h.account { h.amount@ } else { balance_in(s, a) } by {
    }
}

} // verus!
