//! Sums of vault amounts, and how they change when one vault changes.
use vstd::prelude::*;
use crate::types::Vault;

verus! {

/// Which amount of a vault is summed.
pub enum VaultAmount {
    DebtEnrk,
    DebtKfiat,
    Collateral,
}

pub open spec fn amount_of(v: Vault, which: VaultAmount) -> int {
    match which {
        VaultAmount::DebtEnrk => v.debt_enrk as int,
        VaultAmount::DebtKfiat => v.debt_kfiat as int,
        VaultAmount::Collateral => v.collateral_kas as int,
    }
}

/// The sum of one amount over all vaults in `s`.
pub open spec fn sum_amount(s: Seq<Vault>, which: VaultAmount) -> int
    decreases s.len(),
{
    if s.len() == 0 {
        0
    } else {
        sum_amount(s.drop_last(), which) + amount_of(s.last(), which)
    }
}

/// All three amounts of every vault are non-negative.
pub open spec fn amounts_nonnegative(s: Seq<Vault>) -> bool {
    forall|i: int|
        0 <= i < s.len() ==> #[trigger] s[i].debt_enrk >= 0 && s[i].debt_kfiat >= 0
            && s[i].collateral_kas >= 0
}

pub proof fn lemma_sum_push(s: Seq<Vault>, v: Vault, which: VaultAmount)
    ensures
        sum_amount(s.push(v), which) == sum_amount(s, which) + amount_of(v, which),
{
    assert(s.push(v).drop_last() =~= s);
}

pub proof fn lemma_sum_update(s: Seq<Vault>, i: int, v: Vault, which: VaultAmount)
    requires
        0 <= i < s.len(),
    ensures
        sum_amount(s.update(i, v), which) == sum_amount(s, which) - amount_of(s[i], which)
            + amount_of(v, which),
    decreases s.len(),
{
    let u = s.update(i, v);
    if i == s.len() - 1 {
        assert(u.drop_last() =~= s.drop_last());
    } else {
        lemma_sum_update(s.drop_last(), i, v, which);
        assert(u.drop_last() =~= s.drop_last().update(i, v));
    }
}

pub proof fn lemma_sum_bounds(s: Seq<Vault>, i: int, which: VaultAmount)
    requires
        amounts_nonnegative(s),
        0 <= i <= s.len(),
    ensures
        0 <= sum_amount(s.take(i), which) <= sum_amount(s, which),
        i < s.len() ==> sum_amount(s.take(i + 1), which) == sum_amount(s.take(i), which)
            + amount_of(s[i], which),
        i < s.len() ==> 0 <= amount_of(s[i], which) <= sum_amount(s, which),
    decreases s.len(),
{
    if i < s.len() {
        assert(s.take(i + 1).drop_last() =~= s.take(i));
        assert(s[i].debt_enrk >= 0 && s[i].debt_kfiat >= 0 && s[i].collateral_kas >= 0);
    }
    if s.len() > 0 {
        let t = s.drop_last();
        assert forall|k: int| 0 <= k < t.len() implies #[trigger] t[k].debt_enrk >= 0
            && t[k].debt_kfiat >= 0 && t[k].collateral_kas >= 0 by {
            assert(t[k] == s[k]);
        }
        assert(s.last().debt_enrk >= 0 && s.last().debt_kfiat >= 0 && s.last().collateral_kas >= 0) by {
            assert(s.last() == s[s.len() - 1]);
        }
        if i == s.len() {
            assert(s.take(i) =~= s);
            lemma_sum_bounds(t, t.len() as int, which);
            assert(t.take(t.len() as int) =~= t);
        } else {
            lemma_sum_bounds(t, i, which);
            assert(t.take(i) =~= s.take(i));
            if i < t.len() {
                assert(t.take(i + 1) =~= s.take(i + 1));
                assert(t[i] == s[i]);
            } else {
                assert(t.take(i) =~= t);
                lemma_sum_bounds(t, 0, which);
            }
        }
    } else {
        assert(s.take(i) =~= s);
    }
}

} // verus!
