//! A sequence of (address, amount) holdings and the facts the token ledger rests
//! on: each address appears at most once, every amount is positive, and the
//! amounts add up to the ledger's supply.
use vstd::prelude::*;

verus! {

/// One address's non-zero balance.
pub struct Holding {
    pub address: String,
    pub amount: i128,
}

/// The amount that `s` records for address `a`: the last entry for `a`, or zero.
pub open spec fn amount_in(s: Seq<Holding>, a: Seq<char>) -> int
    decreases s.len(),
{
    if s.len() == 0 {
        0
    } else if s.last().address@ == a {
        s.last().amount as int
    } else {
        amount_in(s.drop_last(), a)
    }
}

/// The sum of all amounts in `s`.
pub open spec fn total_of(s: Seq<Holding>) -> int
    decreases s.len(),
{
    if s.len() == 0 {
        0
    } else {
        total_of(s.drop_last()) + s.last().amount
    }
}

/// No address appears twice.
pub open spec fn distinct(s: Seq<Holding>) -> bool {
    forall|i: int, j: int| 0 <= i < j < s.len() ==> s[i].address@ != s[j].address@
}

/// Every amount is positive.
pub open spec fn positive(s: Seq<Holding>) -> bool {
    forall|i: int| 0 <= i < s.len() ==> s[i].amount > 0
}

/// The addresses of `s`, in order.
pub open spec fn addresses(s: Seq<Holding>) -> Seq<Seq<char>> {
    s.map_values(|h: Holding| h.address@)
}

pub proof fn lemma_amount_at(s: Seq<Holding>, i: int)
    requires
        distinct(s),
        0 <= i < s.len(),
    ensures
        amount_in(s, s[i].address@) == s[i].amount,
    decreases s.len(),
{
    if i < s.len() - 1 {
        assert(s.drop_last()[i] == s[i]);
        lemma_amount_at(s.drop_last(), i);
    }
}

pub proof fn lemma_amount_absent(s: Seq<Holding>, a: Seq<char>)
    requires
        forall|i: int| 0 <= i < s.len() ==> s[i].address@ != a,
    ensures
        amount_in(s, a) == 0,
    decreases s.len(),
{
    if s.len() > 0 {
        assert(s[s.len() - 1].address@ != a);
        assert forall|i: int| 0 <= i < s.drop_last().len() implies s.drop_last()[i].address@ != a by {
            assert(s.drop_last()[i] == s[i]);
        }
        lemma_amount_absent(s.drop_last(), a);
    }
}

pub proof fn lemma_total_nonnegative(s: Seq<Holding>)
    requires
        positive(s),
    ensures
        total_of(s) >= 0,
        s.len() > 0 ==> total_of(s) > 0,
    decreases s.len(),
{
    if s.len() > 0 {
        assert forall|i: int| 0 <= i < s.drop_last().len() implies s.drop_last()[i].amount > 0 by {
            assert(s.drop_last()[i] == s[i]);
        }
        lemma_total_nonnegative(s.drop_last());
    }
}

/// Any one amount, or any two amounts at distinct places, are covered by the total.
pub proof fn lemma_amounts_within_total(s: Seq<Holding>, i: int, j: int)
    requires
        positive(s),
        0 <= i < s.len(),
        0 <= j < s.len(),
    ensures
        s[i].amount <= total_of(s),
        i != j ==> s[i].amount + s[j].amount <= total_of(s),
    decreases s.len(),
{
    let t = s.drop_last();
    let n = s.len() - 1;
    assert forall|k: int| 0 <= k < t.len() implies t[k].amount > 0 by {
        assert(t[k] == s[k]);
    }
    lemma_total_nonnegative(t);
    if i < n && j < n {
        assert(t[i] == s[i] && t[j] == s[j]);
        lemma_amounts_within_total(t, i, j);
    } else if i < n {
        assert(t[i] == s[i]);
        lemma_amounts_within_total(t, i, i);
    } else if j < n {
        assert(t[j] == s[j]);
        lemma_amounts_within_total(t, j, j);
    }
}

/// Two distinct addresses' amounts are covered by the total.
pub proof fn lemma_two_amounts_within_total(s: Seq<Holding>, a: Seq<char>, b: Seq<char>)
    requires
        positive(s),
        distinct(s),
        a != b,
    ensures
        amount_in(s, a) >= 0,
        amount_in(s, a) + amount_in(s, b) <= total_of(s),
    decreases s.len(),
{
    lemma_total_nonnegative(s);
    if s.len() > 0 {
        let t = s.drop_last();
        assert forall|k: int| 0 <= k < t.len() implies t[k].amount > 0 by {
            assert(t[k] == s[k]);
        }
        assert forall|i: int, j: int| 0 <= i < j < t.len() implies t[i].address@ != t[j].address@ by {
            assert(t[i] == s[i] && t[j] == s[j]);
        }
        lemma_two_amounts_within_total(t, a, b);
        let last = s.last();
        if last.address@ == a {
            lemma_not_present_in_prefix(s, a);
            lemma_amount_absent(t, a);
        } else if last.address@ == b {
            lemma_not_present_in_prefix(s, b);
            lemma_amount_absent(t, b);
        }
    }
}

proof fn lemma_not_present_in_prefix(s: Seq<Holding>, a: Seq<char>)
    requires
        distinct(s),
        s.len() > 0,
        s.last().address@ == a,
    ensures
        forall|i: int| 0 <= i < s.drop_last().len() ==> s.drop_last()[i].address@ != a,
{
    assert forall|i: int| 0 <= i < s.drop_last().len() implies s.drop_last()[i].address@ != a by {
        assert(s.drop_last()[i] == s[i]);
        assert(s[i].address@ != s[s.len() - 1].address@);
    }
}

/// Replacing the amount at position `i` changes only that address's amount,
/// and changes the total by the difference.
pub proof fn lemma_set_amount(s: Seq<Holding>, i: int, h: Holding)
    requires
        distinct(s),
        0 <= i < s.len(),
        h.address@ == s[i].address@,
    ensures
        distinct(s.update(i, h)),
        total_of(s.update(i, h)) == total_of(s) - s[i].amount + h.amount,
        forall|a: Seq<char>|
            #![trigger amount_in(s.update(i, h), a)]
            amount_in(s.update(i, h), a) == if a == s[i].address@ {
                h.amount as int
            } else {
                amount_in(s, a)
            },
    decreases s.len(),
{
    let u = s.update(i, h);
    assert forall|p: int, q: int| 0 <= p < q < u.len() implies u[p].address@ != u[q].address@ by {
        assert(u[p].address@ == s[p].address@);
        assert(u[q].address@ == s[q].address@);
    }
    if i == s.len() - 1 {
        assert(u.drop_last() =~= s.drop_last());
        assert(u.last() == h);
        assert forall|a: Seq<char>| #![trigger amount_in(u, a)]
            amount_in(u, a) == if a == s[i].address@ { h.amount as int } else { amount_in(s, a) } by {
            assert(s.last().address@ == s[i].address@);
            if a != s[i].address@ {
                assert(amount_in(u, a) == amount_in(u.drop_last(), a));
                assert(amount_in(s, a) == amount_in(s.drop_last(), a));
            }
        }
    } else {
        let t = s.drop_last();
        assert forall|p: int, q: int| 0 <= p < q < t.len() implies t[p].address@ != t[q].address@ by {
            assert(t[p] == s[p] && t[q] == s[q]);
        }
        assert(t[i] == s[i]);
        lemma_set_amount(t, i, h);
        assert(u.drop_last() =~= t.update(i, h));
        assert(u.last() == s.last());
        assert forall|a: Seq<char>| #![trigger amount_in(u, a)]
            amount_in(u, a) == if a == s[i].address@ { h.amount as int } else { amount_in(s, a) } by {
            assert(s.last().address@ != s[i].address@);
            if s.last().address@ != a {
                assert(amount_in(u, a) == amount_in(u.drop_last(), a));
                assert(amount_in(t.update(i, h), a) == if a == s[i].address@ {
                    h.amount as int
                } else {
                    amount_in(t, a)
                });
            }
        }
    }
}

/// Removing the entry at position `i` zeroes that address's amount and lowers
/// the total by it.
pub proof fn lemma_remove_entry(s: Seq<Holding>, i: int)
    requires
        distinct(s),
        0 <= i < s.len(),
    ensures
        distinct(s.remove(i)),
        total_of(s.remove(i)) == total_of(s) - s[i].amount,
        forall|a: Seq<char>|
            #![trigger amount_in(s.remove(i), a)]
            amount_in(s.remove(i), a) == if a == s[i].address@ {
                0
            } else {
                amount_in(s, a)
            },
    decreases s.len(),
{
    let u = s.remove(i);
    assert forall|p: int, q: int| 0 <= p < q < u.len() implies u[p].address@ != u[q].address@ by {
        if p < i {
            assert(u[p] == s[p]);
        } else {
            assert(u[p] == s[p + 1]);
        }
        if q < i {
            assert(u[q] == s[q]);
        } else {
            assert(u[q] == s[q + 1]);
        }
    }
    if i == s.len() - 1 {
        assert(u =~= s.drop_last());
        lemma_not_present_in_prefix(s, s[i].address@);
        assert forall|a: Seq<char>| #![trigger amount_in(u, a)]
            amount_in(u, a) == if a == s[i].address@ { 0 } else { amount_in(s, a) } by {
            if a == s[i].address@ {
                lemma_amount_absent(u, a);
            } else {
                assert(s.last().address@ == s[i].address@);
                assert(amount_in(s, a) == amount_in(s.drop_last(), a));
            }
        }
    } else {
        let t = s.drop_last();
        assert forall|p: int, q: int| 0 <= p < q < t.len() implies t[p].address@ != t[q].address@ by {
            assert(t[p] == s[p] && t[q] == s[q]);
        }
        assert(t[i] == s[i]);
        lemma_remove_entry(t, i);
        assert(u.drop_last() =~= t.remove(i));
        assert(u.last() == s.last());
        assert forall|a: Seq<char>| #![trigger amount_in(u, a)]
            amount_in(u, a) == if a == s[i].address@ { 0 } else { amount_in(s, a) } by {
            assert(s.last().address@ != s[i].address@);
            if s.last().address@ != a {
                assert(amount_in(u, a) == amount_in(u.drop_last(), a));
                assert(amount_in(t.remove(i), a) == if a == s[i].address@ {
                    0
                } else {
                    amount_in(t, a)
                });
            }
        }
    }
}

/// Appending an entry for a new address records its amount and adds it to the total.
pub proof fn lemma_push_entry(s: Seq<Holding>, h: Holding)
    requires
        distinct(s),
        forall|i: int| 0 <= i < s.len() ==> s[i].address@ != h.address@,
    ensures
        distinct(s.push(h)),
        total_of(s.push(h)) == total_of(s) + h.amount,
        forall|a: Seq<char>|
            #![trigger amount_in(s.push(h), a)]
            amount_in(s.push(h), a) == if a == h.address@ {
                h.amount as int
            } else {
                amount_in(s, a)
            },
{
    let u = s.push(h);
    assert(u.drop_last() =~= s);
    assert forall|p: int, q: int| 0 <= p < q < u.len() implies u[p].address@ != u[q].address@ by {
        if q == s.len() {
            assert(u[p] == s[p]);
        } else {
            assert(u[p] == s[p] && u[q] == s[q]);
        }
    }
}

/// With distinct addresses, the set of addresses has as many members as there
/// are entries.
pub proof fn lemma_address_set_size(s: Seq<Holding>)
    requires
        distinct(s),
    ensures
        addresses(s).to_set().len() == s.len(),
{
    let a = addresses(s);
    assert(a.no_duplicates()) by {
        assert forall|i: int, j: int| 0 <= i < a.len() && 0 <= j < a.len() && i != j implies a[i]
            != a[j] by {
            if i < j {
                assert(s[i].address@ != s[j].address@);
            } else {
                assert(s[j].address@ != s[i].address@);
            }
        }
    }
    a.unique_seq_to_set();
}

/// The amounts of any prefix add up to at most the total.
pub proof fn lemma_prefix_total(s: Seq<Holding>, i: int)
    requires
        positive(s),
        0 <= i <= s.len(),
    ensures
        0 <= total_of(s.take(i)) <= total_of(s),
        i < s.len() ==> total_of(s.take(i + 1)) == total_of(s.take(i)) + s[i].amount,
    decreases s.len(),
{
    if i < s.len() {
        assert(s.take(i + 1).drop_last() =~= s.take(i));
    }
    if i == s.len() {
        assert(s.take(i) =~= s);
        lemma_total_nonnegative(s);
    } else {
        let t = s.drop_last();
        assert forall|k: int| 0 <= k < t.len() implies t[k].amount > 0 by {
            assert(t[k] == s[k]);
        }
        lemma_prefix_total(t, i);
        assert(t.take(i) =~= s.take(i));
        lemma_total_nonnegative(t);
    }
}

} // verus!
