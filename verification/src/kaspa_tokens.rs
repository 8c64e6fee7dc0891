//! ENRK and kFIAT token ledgers, and the supply-level kFIAT cap.
//!
//! The cap is a ratio checked when kFIAT is minted: after a mint, kFIAT is at
//! most `cap` percent of total debt. Burning ENRK shrinks the denominator, so the
//! ratio can rise above the cap afterwards; then further kFIAT mints are refused
//! and `verify_invariants` reports the breach.
//!
//! All arithmetic is exact integer arithmetic. Amounts carry 8 decimals.
use vstd::prelude::*;
use vstd::string::*;
use crate::decimal::{decimal, push_decimal, push_signed_decimal, signed_decimal};
use crate::errors::{
    IgraError, IgraResult, invalid_address, invalid_parameters, calculation_overflow,
    state_inconsistency,
};
use crate::holdings::{
    Holding, addresses, amount_in, distinct, lemma_address_set_size, lemma_amount_absent,
    lemma_amount_at, lemma_prefix_total, lemma_push_entry, lemma_remove_entry, lemma_set_amount,
    lemma_total_nonnegative, lemma_two_amounts_within_total, positive, total_of,
};
use crate::kaspa_adapter::KaspaAddressValidator;

verus! {

/// Decimal precision of both tokens (that of Kaspa's sompi).
pub const TOKEN_DECIMALS: u8 = 8;

/// Symbol of the senior tranche.
pub const ENRK_SYMBOL: &'static str = "ENRK";

/// Symbol of the junior tranche.
pub const KFIAT_SYMBOL: &'static str = "kFIAT";

/// Message of the error reported when a supply would pass its limit.
pub open spec fn supply_overflow_message() -> Seq<char> {
    "Token supply exceeds the representable range"@
}

/// Which tranche a balance belongs to.
#[derive(Debug, Clone, Copy, PartialEq, Eq, Hash, Structural)]
pub enum TokenType {
    /// Senior tranche: pegged, redeemable, unlimited supply.
    Enrk,
    /// Junior tranche: unpegged, loss-absorbing, capped supply.
    Kfiat,
}

impl TokenType {
    pub open spec fn symbol_spec(&self) -> Seq<char> {
        match self {
            TokenType::Enrk => "ENRK"@,
            TokenType::Kfiat => "kFIAT"@,
        }
    }

    /// The token's symbol: `ENRK` or `kFIAT`.
    pub fn symbol(&self) -> (s: &'static str)
        ensures
            s@ == self.symbol_spec(),
    {
        match self {
            TokenType::Enrk => ENRK_SYMBOL,
            TokenType::Kfiat => KFIAT_SYMBOL,
        }
    }

    /// The token's display form, its symbol.
    pub fn to_string(&self) -> (s: String)
        ensures
            s@ == self.symbol_spec(),
    {
        String::from_str(self.symbol())
    }
}

/// `x` as a `u64` when it fits, else `default`.
pub open spec fn u64_or(x: int, default: u64) -> u64 {
    if 0 <= x <= u64::MAX {
        x as u64
    } else {
        default
    }
}

fn to_u64_or(x: i128, default: u64) -> (r: u64)
    ensures
        r == u64_or(x as int, default),
{
    if 0 <= x && x <= u64::MAX as i128 {
        x as u64
    } else {
        default
    }
}

/// What minting `amount` to `to` does to a ledger whose supply may not pass
/// `limit`: the address must be valid, the amount positive and the new supply
/// within the limit, checked in that order; a refusal changes nothing; a mint
/// adds the amount to the recipient's balance and to the supply, and returns the
/// new balance.
pub open spec fn mint_outcome(
    old: TokenLedger,
    new: TokenLedger,
    to: &str,
    amount: i128,
    limit: int,
    r: IgraResult<i128>,
) -> bool {
    let valid = KaspaAddressValidator::address_spec(to);
    &&& new.wf()
    &&& new.kind() == old.kind()
    &&& !valid ==> invalid_address(r, to@)
    &&& valid && amount <= 0 ==> r == Err::<i128, IgraError>(IgraError::InvalidDebtAmount)
    &&& valid && amount > 0 && old.supply() + amount > limit ==> calculation_overflow(
        r,
        supply_overflow_message(),
    )
    &&& r is Err ==> new == old
    &&& valid && amount > 0 && old.supply() + amount <= limit ==> {
        &&& r == Ok::<i128, IgraError>((old.balance(to@) + amount) as i128)
        &&& new.supply() == old.supply() + amount
        &&& forall|a: Seq<char>| #![trigger new.balance(a)]
            new.balance(a) == old.balance(a) + if a == to@ {
                amount as int
            } else {
                0
            }
    }
}

/// What burning `amount` from `from` does to a ledger: the address must be
/// valid, the amount positive and covered by the balance, checked in that order;
/// a refusal changes nothing; a burn takes the amount from the balance and the
/// supply, and returns the remaining balance.
pub open spec fn burn_outcome(
    old: TokenLedger,
    new: TokenLedger,
    from: &str,
    amount: i128,
    r: IgraResult<i128>,
) -> bool {
    let valid = KaspaAddressValidator::address_spec(from);
    &&& new.wf()
    &&& new.kind() == old.kind()
    &&& !valid ==> invalid_address(r, from@)
    &&& valid && amount <= 0 ==> r == Err::<i128, IgraError>(IgraError::InvalidDebtAmount)
    &&& valid && amount > 0 && old.balance(from@) < amount ==> r == Err::<i128, IgraError>(
        IgraError::InsufficientBalance {
            required: u64_or(amount as int, u64::MAX),
            available: u64_or(old.balance(from@), 0),
        },
    )
    &&& r is Err ==> new == old
    &&& valid && amount > 0 && old.balance(from@) >= amount ==> {
        &&& r == Ok::<i128, IgraError>((old.balance(from@) - amount) as i128)
        &&& new.supply() == old.supply() - amount
        &&& forall|a: Seq<char>| #![trigger new.balance(a)]
            new.balance(a) == old.balance(a) - if a == from@ {
                amount as int
            } else {
                0
            }
    }
}

/// What transferring `amount` from `from` to `to` does to a ledger: both
/// addresses must be valid, the amount positive, the addresses different and
/// the amount covered by the sender's balance, checked in that order; a refusal
/// changes nothing; a transfer moves the amount and leaves the supply unchanged.
pub open spec fn transfer_outcome(
    old: TokenLedger,
    new: TokenLedger,
    from: &str,
    to: &str,
    amount: i128,
    r: IgraResult<()>,
) -> bool {
    let valid_from = KaspaAddressValidator::address_spec(from);
    let valid_to = KaspaAddressValidator::address_spec(to);
    let checked = valid_from && valid_to && amount > 0 && from@ != to@;
    &&& new.wf()
    &&& new.kind() == old.kind()
    &&& !valid_from ==> invalid_address(r, from@)
    &&& valid_from && !valid_to ==> invalid_address(r, to@)
    &&& valid_from && valid_to && amount <= 0 ==> r == Err::<(), IgraError>(
        IgraError::InvalidDebtAmount,
    )
    &&& valid_from && valid_to && amount > 0 && from@ == to@ ==> invalid_parameters(
        r,
        "Cannot transfer to the same address"@,
    )
    &&& checked && old.balance(from@) < amount ==> r == Err::<(), IgraError>(
        IgraError::InsufficientBalance {
            required: u64_or(amount as int, u64::MAX),
            available: u64_or(old.balance(from@), 0),
        },
    )
    &&& r is Err ==> new == old
    &&& checked && old.balance(from@) >= amount ==> {
        &&& r is Ok
        &&& new.supply() == old.supply()
        &&& forall|a: Seq<char>| #![trigger new.balance(a)]
            new.balance(a) == old.balance(a) - (if a == from@ {
                amount as int
            } else {
                0
            }) + (if a == to@ {
                amount as int
            } else {
                0
            })
    }
}

/// A single-token ledger: total supply and the balance of each holder.
///
/// Only addresses with a positive balance are held; a balance that reaches zero
/// is removed.
pub struct TokenLedger {
    token_type: TokenType,
    decimals: u8,
    total_supply: i128,
    holdings: Vec<Holding>,
}

impl TokenLedger {
    /// The ledger's invariant: each address appears once with a positive
    /// balance, and the supply is the sum of the balances.
    pub closed spec fn wf(&self) -> bool {
        &&& distinct(self.holdings@)
        &&& positive(self.holdings@)
        &&& self.total_supply == total_of(self.holdings@)
        &&& self.decimals == TOKEN_DECIMALS
    }

    /// Total supply.
    pub closed spec fn supply(&self) -> int {
        self.total_supply as int
    }

    /// Balance of address `a` (zero when it holds none).
    pub closed spec fn balance(&self, a: Seq<char>) -> int {
        amount_in(self.holdings@, a)
    }

    /// The addresses that hold a balance.
    pub closed spec fn holders(&self) -> Set<Seq<char>> {
        addresses(self.holdings@).to_set()
    }

    /// The sum of all balances.
    pub closed spec fn balance_sum(&self) -> int {
        total_of(self.holdings@)
    }

    pub closed spec fn kind(&self) -> TokenType {
        self.token_type
    }

    pub closed spec fn decimals_spec(&self) -> u8 {
        self.decimals
    }

    /// The facts that hold of every well-formed ledger: supply equals the sum of
    /// the balances; balances are non-negative and covered by the supply; an
    /// address is a holder exactly when its balance is positive; two distinct
    /// addresses together hold at most the supply.
    pub proof fn lemma_wf_facts(&self)
        requires
            self.wf(),
        ensures
            self.supply() == self.balance_sum(),
            self.supply() >= 0,
            forall|a: Seq<char>| #![trigger self.balance(a)] 0 <= self.balance(a) <= self.supply(),
            forall|a: Seq<char>| #![trigger self.holders().contains(a)]
                self.holders().contains(a) <==> self.balance(a) > 0,
            forall|a: Seq<char>, b: Seq<char>|
                #![trigger self.balance(a), self.balance(b)]
                a != b ==> self.balance(a) + self.balance(b) <= self.supply(),
            self.holders().finite(),
    {
        let s = self.holdings@;
        lemma_total_nonnegative(s);
        assert forall|a: Seq<char>, b: Seq<char>|
            #![trigger self.balance(a), self.balance(b)]
            a != b implies self.balance(a) + self.balance(b) <= self.supply() by {
            lemma_two_amounts_within_total(s, a, b);
            lemma_two_amounts_within_total(s, b, a);
        }
        assert forall|a: Seq<char>| #![trigger self.balance(a)]
            0 <= self.balance(a) <= self.supply() by {
            let other = a.push('x');
            assert(other.len() != a.len());
            lemma_two_amounts_within_total(s, a, other);
            lemma_two_amounts_within_total(s, other, a);
        }
        assert forall|a: Seq<char>| #![trigger self.holders().contains(a)]
            self.holders().contains(a) <==> self.balance(a) > 0 by {
            if self.holders().contains(a) {
                let i = addresses(s).index_of(a);
                assert(addresses(s).contains(a));
                assert(0 <= i < s.len() && addresses(s)[i] == a);
                lemma_amount_at(s, i);
            } else {
                assert forall|i: int| 0 <= i < s.len() implies s[i].address@ != a by {
                    assert(addresses(s)[i] == s[i].address@);
                    if s[i].address@ == a {
                        assert(addresses(s).contains(a));
                    }
                }
                lemma_amount_absent(s, a);
            }
        }
        lemma_address_set_size(s);
    }

    /// An empty ledger for the given tranche.
    pub fn new(token_type: TokenType) -> (r: TokenLedger)
        ensures
            r.wf(),
            r.kind() == token_type,
            r.supply() == 0,
            forall|a: Seq<char>| #![trigger r.balance(a)] r.balance(a) == 0,
            r.holders().len() == 0,
    {
        let r = TokenLedger {
            token_type,
            decimals: TOKEN_DECIMALS,
            total_supply: 0,
            holdings: Vec::new(),
        };
        proof {
            lemma_address_set_size(r.holdings@);
        }
        r
    }

    fn require_valid_address(address: &str) -> (r: IgraResult<()>)
        ensures
            r is Ok <==> KaspaAddressValidator::address_spec(address),
            r matches Err(e) ==> e matches IgraError::InvalidAddress(m) && m@ == address@,
    {
        if !KaspaAddressValidator::is_valid_address(address) {
            return Err(IgraError::InvalidAddress(String::from_str(address)));
        }
        Ok(())
    }

    fn find(&self, address: &String) -> (r: Option<usize>)
        ensures
            match r {
                Some(i) => i < self.holdings@.len() && self.holdings@[i as int].address@ == address@,
                None => forall|i: int|
                    0 <= i < self.holdings@.len() ==> self.holdings@[i].address@ != address@,
            },
    {
        let n = self.holdings.len();
        let mut i: usize = 0;
        while i < n
            invariant
                0 <= i <= n,
                n == self.holdings@.len(),
                forall|j: int| 0 <= j < i ==> self.holdings@[j].address@ != address@,
            decreases n - i,
        {
            if self.holdings[i].address == *address {
                return Some(i);
            }
            i += 1;
        }
        None
    }

    /// The balance at `address` and, if it holds one, its position.
    fn lookup(&self, address: &String) -> (r: (Option<usize>, i128))
        requires
            self.wf(),
        ensures
            r.1 == self.balance(address@),
            r.1 >= 0,
            match r.0 {
                Some(i) => i < self.holdings@.len() && self.holdings@[i as int].address@
                    == address@ && r.1 > 0 && r.1 == self.holdings@[i as int].amount,
                None => r.1 == 0,
            },
    {
        let found = self.find(address);
        match found {
            Some(i) => {
                proof {
                    lemma_amount_at(self.holdings@, i as int);
                }
                (Some(i), self.holdings[i].amount)
            },
            None => {
                proof {
                    lemma_amount_absent(self.holdings@, address@);
                }
                (None, 0)
            },
        }
    }

    /// Adds `amount` to the balance of `address`, creating the entry if needed.
    /// The supply is left to the caller.
    fn credit(&mut self, address: String, amount: i128)
        requires
            distinct(old(self).holdings@),
            positive(old(self).holdings@),
            amount > 0,
            amount_in(old(self).holdings@, address@) + amount <= i128::MAX,
        ensures
            distinct(final(self).holdings@),
            positive(final(self).holdings@),
            total_of(final(self).holdings@) == total_of(old(self).holdings@) + amount,
            forall|a: Seq<char>| #![trigger amount_in(final(self).holdings@, a)]
                amount_in(final(self).holdings@, a) == amount_in(old(self).holdings@, a) + if a
                    == address@ {
                    amount as int
                } else {
                    0
                },
            final(self).token_type == old(self).token_type,
            final(self).decimals == old(self).decimals,
            final(self).total_supply == old(self).total_supply,
    {
        let found = self.find(&address);
        match found {
            Some(i) => {
                proof {
                    lemma_amount_at(self.holdings@, i as int);
                }
                let new_amount = self.holdings[i].amount + amount;
                let h = Holding { address, amount: new_amount };
                proof {
                    lemma_set_amount(self.holdings@, i as int, h);
                }
                self.holdings.set(i, h);
            },
            None => {
                proof {
                    lemma_amount_absent(self.holdings@, address@);
                }
                let h = Holding { address, amount };
                proof {
                    lemma_push_entry(self.holdings@, h);
                }
                self.holdings.push(h);
            },
        }
    }

    /// Lowers the balance held at position `i` by `amount`, removing the entry
    /// when it reaches zero. The supply is left to the caller.
    fn debit(&mut self, i: usize, amount: i128)
        requires
            distinct(old(self).holdings@),
            positive(old(self).holdings@),
            i < old(self).holdings@.len(),
            0 < amount <= old(self).holdings@[i as int].amount,
        ensures
            distinct(final(self).holdings@),
            positive(final(self).holdings@),
            total_of(final(self).holdings@) == total_of(old(self).holdings@) - amount,
            forall|a: Seq<char>| #![trigger amount_in(final(self).holdings@, a)]
                amount_in(final(self).holdings@, a) == amount_in(old(self).holdings@, a) - if a
                    == old(self).holdings@[i as int].address@ {
                    amount as int
                } else {
                    0
                },
            final(self).token_type == old(self).token_type,
            final(self).decimals == old(self).decimals,
            final(self).total_supply == old(self).total_supply,
    {
        proof {
            lemma_amount_at(self.holdings@, i as int);
        }
        let remaining = self.holdings[i].amount - amount;
        if remaining == 0 {
            proof {
                lemma_remove_entry(self.holdings@, i as int);
            }
            self.holdings.remove(i);
        } else {
            let address = self.holdings[i].address.clone();
            let h = Holding { address, amount: remaining };
            proof {
                lemma_set_amount(self.holdings@, i as int, h);
                assert(positive(self.holdings@.update(i as int, h)));
            }
            self.holdings.set(i, h);
        }
    }

    /// Mints `amount` to `to` provided the supply stays at most `limit`.
    fn mint_within(&mut self, to: &str, amount: i128, limit: i128) -> (r: IgraResult<i128>)
        requires
            old(self).wf(),
            old(self).supply() <= limit,
        ensures
            mint_outcome(*old(self), *final(self), to, amount, limit as int, r),
    {
        Self::require_valid_address(to)?;
        if amount <= 0 {
            return Err(IgraError::InvalidDebtAmount);
        }
        proof {
            self.lemma_wf_facts();
        }
        if amount > limit - self.total_supply {
            return Err(
                IgraError::CalculationOverflow(
                    String::from_str("Token supply exceeds the representable range"),
                ),
            );
        }
        let key = String::from_str(to);
        proof {
            self.lemma_wf_facts();
        }
        let (_, before) = self.lookup(&key);
        self.credit(key, amount);
        self.total_supply = self.total_supply + amount;
        Ok(before + amount)
    }

    /// Mints `amount` to `to`, raising the total supply. Returns the recipient's
    /// new balance. The address must be a valid Kaspa address and the amount
    /// positive; a supply beyond `i128::MAX` is refused as an overflow. A refused
    /// mint leaves the ledger unchanged.
    pub fn mint(&mut self, to: &str, amount: i128) -> (r: IgraResult<i128>)
        requires
            old(self).wf(),
        ensures
            mint_outcome(*old(self), *final(self), to, amount, i128::MAX as int, r),
    {
        self.mint_within(to, amount, i128::MAX)
    }

    /// Burns `amount` from `from`, lowering the total supply. Returns the
    /// holder's remaining balance; a balance that reaches zero is removed. The
    /// address must be valid, the amount positive and covered by the balance.
    /// A refused burn leaves the ledger unchanged.
    pub fn burn(&mut self, from: &str, amount: i128) -> (r: IgraResult<i128>)
        requires
            old(self).wf(),
        ensures
            burn_outcome(*old(self), *final(self), from, amount, r),
    {
        Self::require_valid_address(from)?;
        if amount <= 0 {
            return Err(IgraError::InvalidDebtAmount);
        }
        let key = String::from_str(from);
        proof {
            self.lemma_wf_facts();
        }
        let (found, available) = self.lookup(&key);
        if available < amount {
            return Err(
                IgraError::InsufficientBalance {
                    required: to_u64_or(amount, u64::MAX),
                    available: to_u64_or(available, 0),
                },
            );
        }
        // The supply covers every balance; a smaller supply means a corrupt ledger.

        if self.total_supply < amount {
            let mut msg = self.token_type.to_string();
            msg.append(" supply ");
            push_signed_decimal(&mut msg, self.total_supply);
            msg.append(" is less than burn amount ");
            push_signed_decimal(&mut msg, amount);
            return Err(IgraError::StateInconsistency(msg));
        }
        let remaining = available - amount;
        match found {
            Some(i) => {
                self.debit(i, amount);
            },
            None => {},
        }
        self.total_supply = self.total_supply - amount;
        Ok(remaining)
    }

    /// Moves `amount` from `from` to `to`; the total supply is unchanged. Both
    /// addresses must be valid and different, the amount positive and covered by
    /// the sender's balance. A refused transfer leaves the ledger unchanged.
    pub fn transfer(&mut self, from: &str, to: &str, amount: i128) -> (r: IgraResult<()>)
        requires
            old(self).wf(),
        ensures
            transfer_outcome(*old(self), *final(self), from, to, amount, r),
    {
        Self::require_valid_address(from)?;
        Self::require_valid_address(to)?;
        if amount <= 0 {
            return Err(IgraError::InvalidDebtAmount);
        }
        let from_key = String::from_str(from);
        let to_key = String::from_str(to);
        if from_key == to_key {
            return Err(
                IgraError::InvalidParameters(String::from_str("Cannot transfer to the same address")),
            );
        }
        proof {
            self.lemma_wf_facts();
        }
        let (found, available) = self.lookup(&from_key);
        if available < amount {
            return Err(
                IgraError::InsufficientBalance {
                    required: to_u64_or(amount, u64::MAX),
                    available: to_u64_or(available, 0),
                },
            );
        }
        let ghost before = self.holdings@;
        let ghost to_before = self.balance(to@);
        match found {
            Some(i) => {
                self.debit(i, amount);
            },
            None => {},
        }
        assert(amount_in(self.holdings@, to@) == to_before);
        self.credit(to_key, amount);
        Ok(())
    }

    /// Balance of `address` (zero when it holds none).
    pub fn balance_of(&self, address: &str) -> (r: i128)
        requires
            self.wf(),
        ensures
            r == self.balance(address@),
    {
        let key = String::from_str(address);
        let (_, amount) = self.lookup(&key);
        amount
    }

    /// Total supply.
    pub fn total_supply(&self) -> (r: i128)
        ensures
            r == self.supply(),
    {
        self.total_supply
    }

    pub fn token_type(&self) -> (r: TokenType)
        ensures
            r == self.kind(),
    {
        self.token_type
    }

    pub fn decimals(&self) -> (r: u8)
        requires
            self.wf(),
        ensures
            r == TOKEN_DECIMALS,
    {
        self.decimals
    }

    /// Number of addresses holding a non-zero balance.
    pub fn holder_count(&self) -> (r: usize)
        requires
            self.wf(),
        ensures
            r == self.holders().len(),
    {
        proof {
            lemma_address_set_size(self.holdings@);
        }
        self.holdings.len()
    }

    /// Sum of all balances.
    pub fn sum_of_balances(&self) -> (r: i128)
        requires
            self.wf(),
        ensures
            r == self.balance_sum(),
    {
        let n = self.holdings.len();
        let mut acc: i128 = 0;
        let mut i: usize = 0;
        while i < n
            invariant
                0 <= i <= n,
                n == self.holdings@.len(),
                self.wf(),
                acc == total_of(self.holdings@.take(i as int)),
            decreases n - i,
        {
            proof {
                lemma_prefix_total(self.holdings@, i as int);
                lemma_prefix_total(self.holdings@, i as int + 1);
            }
            acc = acc + self.holdings[i].amount;
            i += 1;
        }
        assert(self.holdings@.take(n as int) =~= self.holdings@);
        acc
    }

    /// Checks that the supply equals the sum of the balances. On a well-formed
    /// ledger it always does.
    pub fn verify_invariant(&self) -> (r: IgraResult<()>)
        requires
            self.wf(),
        ensures
            r is Ok <==> self.supply() == self.balance_sum(),
            r is Ok,
    {
        let sum = self.sum_of_balances();
        if sum != self.total_supply {
            let mut msg = self.token_type.to_string();
            msg.append(" supply ");
            push_signed_decimal(&mut msg, self.total_supply);
            msg.append(" != sum of balances ");
            push_signed_decimal(&mut msg, sum);
            return Err(IgraError::StateInconsistency(msg));
        }
        Ok(())
    }
}

/// Supply and holder snapshot of the token layer.
#[derive(Debug, Clone, Copy, PartialEq, Eq, Structural)]
pub struct TokenSupplyStats {
    pub enrk_supply: i128,
    pub kfiat_supply: i128,
    pub total_debt: i128,
    /// kFIAT as a percentage of total debt (floor).
    pub kfiat_ratio_percent: u8,
    pub kfiat_cap_percent: u8,
    pub enrk_holders: usize,
    pub kfiat_holders: usize,
}

/// kFIAT `k` is within `cap` percent of the total debt `e + k`.
pub open spec fn cap_holds(e: int, k: int, cap: int) -> bool {
    100 * k <= cap * (e + k)
}

/// Minting `a` kFIAT on top of `e` ENRK and `k` kFIAT would pass the cap.
pub open spec fn mint_exceeds_cap(e: int, k: int, cap: int, a: int) -> bool {
    100 * (k + a) > cap * (e + k + a)
}

/// `part` as an integer percentage of `whole` (floor); zero when `whole` is
/// zero, and 100 when the quotient does not fit in a `u8`.
pub open spec fn ratio_percent_spec(part: int, whole: int) -> int {
    if whole == 0 {
        0
    } else if 0 <= (100 * part) / whole <= 255 {
        (100 * part) / whole
    } else {
        100
    }
}

/// The largest kFIAT mint the cap still allows:
/// floor((cap * (e + k) - 100 * k) / (100 - cap)), or zero when that is not positive.
pub open spec fn headroom(e: int, k: int, cap: int) -> int {
    let numerator = cap * (e + k) - 100 * k;
    if numerator <= 0 {
        0
    } else {
        numerator / (100 - cap)
    }
}

/// The two tranches' ledgers and the frozen kFIAT cap, enforced at the supply
/// level when kFIAT is minted.
pub struct TokenLayer {
    enrk: TokenLedger,
    kfiat: TokenLedger,
    kfiat_cap_percent: u8,
}

impl TokenLayer {
    /// Both ledgers are well formed and of their tranche, the cap is strictly
    /// between 0 and 100, and total debt fits in an `i128`.
    pub closed spec fn wf(&self) -> bool {
        &&& self.enrk.wf()
        &&& self.kfiat.wf()
        &&& self.enrk.kind() == TokenType::Enrk
        &&& self.kfiat.kind() == TokenType::Kfiat
        &&& 0 < self.kfiat_cap_percent < 100
        &&& self.enrk.supply() + self.kfiat.supply() <= i128::MAX
    }

    pub closed spec fn enrk_spec(&self) -> TokenLedger {
        self.enrk
    }

    pub closed spec fn kfiat_spec(&self) -> TokenLedger {
        self.kfiat
    }

    pub closed spec fn cap(&self) -> int {
        self.kfiat_cap_percent as int
    }

    /// ENRK supply.
    pub open spec fn e(&self) -> int {
        self.enrk_spec().supply()
    }

    /// kFIAT supply.
    pub open spec fn k(&self) -> int {
        self.kfiat_spec().supply()
    }

    /// Basic bounds of a well-formed layer.
    pub proof fn lemma_wf_bounds(&self)
        requires
            self.wf(),
        ensures
            0 <= self.e(),
            0 <= self.k(),
            self.e() + self.k() <= i128::MAX,
            0 < self.cap() < 100,
            self.enrk_spec().wf(),
            self.kfiat_spec().wf(),
    {
        self.enrk.lemma_wf_facts();
        self.kfiat.lemma_wf_facts();
    }

    /// Creates the layer with a frozen kFIAT cap, which must be strictly between
    /// 0 and 100 (the protocol uses 30).
    pub fn new(kfiat_cap_percent: u8) -> (r: IgraResult<TokenLayer>)
        ensures
            kfiat_cap_percent == 0 || kfiat_cap_percent >= 100 ==> invalid_parameters(
                r,
                "kFIAT cap must be 0 < cap < 100, got "@ + decimal(kfiat_cap_percent as nat),
            ),
            0 < kfiat_cap_percent < 100 ==> (r matches Ok(layer) && layer.wf() && layer.cap()
                == kfiat_cap_percent && layer.e() == 0 && layer.k() == 0),
    {
        if kfiat_cap_percent == 0 || kfiat_cap_percent >= 100 {
            let mut msg = String::from_str("kFIAT cap must be 0 < cap < 100, got ");
            push_decimal(&mut msg, kfiat_cap_percent as u128);
            return Err(IgraError::InvalidParameters(msg));
        }
        Ok(
            TokenLayer {
                enrk: TokenLedger::new(TokenType::Enrk),
                kfiat: TokenLedger::new(TokenType::Kfiat),
                kfiat_cap_percent,
            },
        )
    }

    /// Mints ENRK. The senior tranche is uncapped; total debt must stay
    /// representable as an `i128`.
    pub fn mint_enrk(&mut self, to: &str, amount: i128) -> (r: IgraResult<i128>)
        requires
            old(self).wf(),
        ensures
            final(self).wf(),
            mint_outcome(
                old(self).enrk_spec(),
                final(self).enrk_spec(),
                to,
                amount,
                i128::MAX - old(self).k(),
                r,
            ),
            final(self).kfiat_spec() == old(self).kfiat_spec(),
            final(self).cap() == old(self).cap(),
    {
        proof {
            self.lemma_wf_bounds();
        }
        let limit = i128::MAX - self.kfiat.total_supply();
        self.enrk.mint_within(to, amount, limit)
    }

    /// Whether minting `amount` (positive) kFIAT would pass the cap: exactly
    /// when the kFIAT after the mint exceeds what the ENRK supply carries.
    fn exceeds_cap(&self, amount: i128) -> (r: bool)
        requires
            self.wf(),
            amount > 0,
        ensures
            r == mint_exceeds_cap(self.e(), self.k(), self.cap(), amount as int),
    {
        proof {
            self.lemma_wf_bounds();
            lemma_carried(self.e(), self.k(), self.cap(), amount as int);
        }
        let e = self.enrk.total_supply();
        let k = self.kfiat.total_supply();
        match carried_by(e, self.kfiat_cap_percent) {
            Some(c) => k as u128 + amount as u128 > c,
            None => false,
        }
    }

    /// kFIAT share, as `ratio_percent_spec`, of a debt with `e` ENRK and
    /// `k + a` kFIAT.
    fn prospective_ratio(e: i128, k: i128, a: i128) -> (r: u8)
        requires
            0 <= e,
            0 <= k,
            e + k <= i128::MAX,
            a > 0,
        ensures
            r == ratio_percent_spec(k + a, e + k + a),
    {
        proof {
            lemma_share_at_most_100(k + a, e + k + a);
        }
        percent_of(k as u128 + a as u128, e as u128 + k as u128 + a as u128)
    }

    /// Mints kFIAT, enforcing the cap on the whole supply: after the mint,
    /// 100 * kFIAT <= cap * (ENRK + kFIAT). In particular no kFIAT can be minted
    /// while no ENRK exists. The amount is checked first, then the cap, then the
    /// ledger's own checks; total debt must stay representable. A refused mint
    /// leaves the layer unchanged.
    pub fn mint_kfiat(&mut self, to: &str, amount: i128) -> (r: IgraResult<i128>)
        requires
            old(self).wf(),
        ensures
            final(self).wf(),
            final(self).enrk_spec() == old(self).enrk_spec(),
            final(self).cap() == old(self).cap(),
            amount <= 0 ==> r == Err::<i128, IgraError>(IgraError::InvalidDebtAmount),
            amount > 0 && mint_exceeds_cap(old(self).e(), old(self).k(), old(self).cap(), amount as int)
                ==> r == Err::<i128, IgraError>(
                IgraError::KFIATCapExceeded {
                    current_kfiat: ratio_percent_spec(
                        old(self).k() + amount,
                        old(self).e() + old(self).k() + amount,
                    ) as u64,
                    max_kfiat: old(self).cap() as u64,
                },
            ),
            r is Err ==> *final(self) == *old(self),
            amount > 0 && !mint_exceeds_cap(old(self).e(), old(self).k(), old(self).cap(), amount as int)
                ==> mint_outcome(
                old(self).kfiat_spec(),
                final(self).kfiat_spec(),
                to,
                amount,
                i128::MAX - old(self).e(),
                r,
            ),
            r is Ok ==> cap_holds(final(self).e(), final(self).k(), final(self).cap()),
    {
        if amount <= 0 {
            return Err(IgraError::InvalidDebtAmount);
        }
        proof {
            self.lemma_wf_bounds();
        }
        if self.exceeds_cap(amount) {
            let pct = Self::prospective_ratio(
                self.enrk.total_supply(),
                self.kfiat.total_supply(),
                amount,
            );
            return Err(
                IgraError::KFIATCapExceeded {
                    current_kfiat: pct as u64,
                    max_kfiat: self.kfiat_cap_percent as u64,
                },
            );
        }
        let limit = i128::MAX - self.enrk.total_supply();
        let r = self.kfiat.mint_within(to, amount, limit);
        proof {
            if r is Ok {
                lemma_cap_after_mint(self.e(), old(self).k(), self.cap(), amount as int);
            }
        }
        r
    }

    /// Burns ENRK (repaying senior debt). Always permitted, even when it leaves
    /// the kFIAT ratio above the cap.
    pub fn burn_enrk(&mut self, from: &str, amount: i128) -> (r: IgraResult<i128>)
        requires
            old(self).wf(),
        ensures
            final(self).wf(),
            burn_outcome(old(self).enrk_spec(), final(self).enrk_spec(), from, amount, r),
            final(self).kfiat_spec() == old(self).kfiat_spec(),
            final(self).cap() == old(self).cap(),
    {
        proof {
            self.lemma_wf_bounds();
        }
        self.enrk.burn(from, amount)
    }

    /// Burns kFIAT (repaying junior debt). Always permitted; it can only lower
    /// the kFIAT ratio.
    pub fn burn_kfiat(&mut self, from: &str, amount: i128) -> (r: IgraResult<i128>)
        requires
            old(self).wf(),
        ensures
            final(self).wf(),
            burn_outcome(old(self).kfiat_spec(), final(self).kfiat_spec(), from, amount, r),
            final(self).enrk_spec() == old(self).enrk_spec(),
            final(self).cap() == old(self).cap(),
    {
        proof {
            self.lemma_wf_bounds();
        }
        self.kfiat.burn(from, amount)
    }

    /// Transfers ENRK; supplies are unchanged.
    pub fn transfer_enrk(&mut self, from: &str, to: &str, amount: i128) -> (r: IgraResult<()>)
        requires
            old(self).wf(),
        ensures
            final(self).wf(),
            transfer_outcome(old(self).enrk_spec(), final(self).enrk_spec(), from, to, amount, r),
            final(self).kfiat_spec() == old(self).kfiat_spec(),
            final(self).cap() == old(self).cap(),
    {
        self.enrk.transfer(from, to, amount)
    }

    /// Transfers kFIAT; supplies are unchanged.
    pub fn transfer_kfiat(&mut self, from: &str, to: &str, amount: i128) -> (r: IgraResult<()>)
        requires
            old(self).wf(),
        ensures
            final(self).wf(),
            transfer_outcome(old(self).kfiat_spec(), final(self).kfiat_spec(), from, to, amount, r),
            final(self).enrk_spec() == old(self).enrk_spec(),
            final(self).cap() == old(self).cap(),
    {
        self.kfiat.transfer(from, to, amount)
    }

    /// Balance of `address` in the given tranche.
    pub fn balance_of(&self, address: &str, token_type: TokenType) -> (r: i128)
        requires
            self.wf(),
        ensures
            r == match token_type {
                TokenType::Enrk => self.enrk_spec().balance(address@),
                TokenType::Kfiat => self.kfiat_spec().balance(address@),
            },
    {
        match token_type {
            TokenType::Enrk => self.enrk.balance_of(address),
            TokenType::Kfiat => self.kfiat.balance_of(address),
        }
    }

    /// Total protocol debt across both tranches.
    pub fn total_debt(&self) -> (r: i128)
        requires
            self.wf(),
        ensures
            r == self.e() + self.k(),
    {
        proof {
            self.lemma_wf_bounds();
        }
        self.enrk.total_supply() + self.kfiat.total_supply()
    }

    /// kFIAT share of total debt as an integer percentage (floor); zero when
    /// there is no debt.
    pub fn kfiat_ratio_percent(&self) -> (r: u8)
        requires
            self.wf(),
        ensures
            r == ratio_percent_spec(self.k(), self.e() + self.k()),
    {
        proof {
            self.lemma_wf_bounds();
        }
        let k = self.kfiat.total_supply();
        let total = self.total_debt();
        if total == 0 {
            return 0;
        }
        proof {
            lemma_share_at_most_100(k as int, total as int);
        }
        percent_of(k as u128, total as u128)
    }

    /// Largest kFIAT amount that can still be minted without breaching the cap:
    /// floor((cap * (E + K) - 100 * K) / (100 - cap)), or zero; a headroom beyond
    /// `i128::MAX` (only possible for caps above 50%) is reported as `i128::MAX`.
    pub fn max_mintable_kfiat(&self) -> (r: i128)
        requires
            self.wf(),
        ensures
            r == if headroom(self.e(), self.k(), self.cap()) > i128::MAX {
                i128::MAX as int
            } else {
                headroom(self.e(), self.k(), self.cap())
            },
    {
        proof {
            self.lemma_wf_bounds();
            lemma_carried(self.e(), self.k(), self.cap(), 1);
        }
        let k = self.kfiat.total_supply();
        match carried_by(self.enrk.total_supply(), self.kfiat_cap_percent) {
            None => i128::MAX,
            Some(c) => {
                if c <= k as u128 {
                    0
                } else if c - (k as u128) > i128::MAX as u128 {
                    i128::MAX
                } else {
                    (c - (k as u128)) as i128
                }
            },
        }
    }

    /// Whether minting `amount` kFIAT would breach the cap; a non-positive
    /// amount never does.
    pub fn would_exceed_kfiat_cap(&self, amount: i128) -> (r: bool)
        requires
            self.wf(),
        ensures
            r == (amount > 0 && mint_exceeds_cap(self.e(), self.k(), self.cap(), amount as int)),
    {
        if amount <= 0 {
            return false;
        }
        self.exceeds_cap(amount)
    }

    /// Supply and holder snapshot.
    pub fn supply_stats(&self) -> (r: TokenSupplyStats)
        requires
            self.wf(),
        ensures
            r.enrk_supply == self.e(),
            r.kfiat_supply == self.k(),
            r.total_debt == self.e() + self.k(),
            r.kfiat_ratio_percent == ratio_percent_spec(self.k(), self.e() + self.k()),
            r.kfiat_cap_percent == self.cap(),
            r.enrk_holders == self.enrk_spec().holders().len(),
            r.kfiat_holders == self.kfiat_spec().holders().len(),
    {
        TokenSupplyStats {
            enrk_supply: self.enrk.total_supply(),
            kfiat_supply: self.kfiat.total_supply(),
            total_debt: self.total_debt(),
            kfiat_ratio_percent: self.kfiat_ratio_percent(),
            kfiat_cap_percent: self.kfiat_cap_percent,
            enrk_holders: self.enrk.holder_count(),
            kfiat_holders: self.kfiat.holder_count(),
        }
    }

    /// Checks both ledgers (each supply equals its sum of balances, which always
    /// holds) and the cap. The cap is only guaranteed at mint time: burning ENRK
    /// can leave kFIAT above it, and then this reports the breach.
    pub fn verify_invariants(&self) -> (r: IgraResult<()>)
        requires
            self.wf(),
        ensures
            r is Ok <==> (self.e() + self.k() == 0 || cap_holds(self.e(), self.k(), self.cap())),
            r is Err ==> state_inconsistency(
                r,
                "kFIAT ratio "@ + decimal(ratio_percent_spec(self.k(), self.e() + self.k()) as nat)
                    + "% exceeds cap "@ + decimal(self.cap() as nat) + "%"@,
            ),
    {
        proof {
            self.lemma_wf_bounds();
            lemma_carried(self.e(), self.k(), self.cap(), 1);
        }
        self.enrk.verify_invariant()?;
        self.kfiat.verify_invariant()?;
        let total = self.total_debt();
        if total != 0 {
            let breached = match carried_by(self.enrk.total_supply(), self.kfiat_cap_percent) {
                Some(c) => self.kfiat.total_supply() as u128 > c,
                None => false,
            };
            if breached {
                let mut msg = String::from_str("kFIAT ratio ");
                push_decimal(&mut msg, self.kfiat_ratio_percent() as u128);
                msg.append("% exceeds cap ");
                push_decimal(&mut msg, self.kfiat_cap_percent as u128);
                msg.append("%");
                return Err(IgraError::StateInconsistency(msg));
            }
        }
        Ok(())
    }

    pub fn kfiat_cap_percent(&self) -> (r: u8)
        ensures
            r == self.cap(),
    {
        self.kfiat_cap_percent
    }

    pub fn enrk_ledger(&self) -> (r: &TokenLedger)
        ensures
            *r == self.enrk_spec(),
    {
        &self.enrk
    }

    pub fn kfiat_ledger(&self) -> (r: &TokenLedger)
        ensures
            *r == self.kfiat_spec(),
    {
        &self.kfiat
    }
}

/// The most kFIAT that `e` ENRK carries under a cap of `cap` percent:
/// floor(cap * e / (100 - cap)).
pub open spec fn carried(e: int, cap: int) -> int {
    (cap * e) / (100 - cap)
}

/// The cap, its breach by a mint and the headroom, each read off `carried`.
proof fn lemma_carried(e: int, k: int, cap: int, a: int)
    requires
        0 <= e,
        0 <= k,
        0 < cap < 100,
    ensures
        carried(e, cap) >= 0,
        cap_holds(e, k, cap) <==> k <= carried(e, cap),
        mint_exceeds_cap(e, k, cap, a) <==> k + a > carried(e, cap),
        headroom(e, k, cap) == if carried(e, cap) > k {
            carried(e, cap) - k
        } else {
            0
        },
{
    let d = 100 - cap;
    let x = cap * e;
    assert(x >= 0) by (nonlinear_arith)
        requires
            x == cap * e,
            0 <= e,
            0 < cap,
    ;
    let f = x / d;
    let m = x % d;
    vstd::arithmetic::div_mod::lemma_fundamental_div_mod(x, d);
    vstd::arithmetic::div_mod::lemma_mod_pos_bound(x, d);
    assert(f >= 0) by (nonlinear_arith)
        requires
            x == d * f + m,
            0 <= m < d,
            x >= 0,
    ;
    assert(cap_holds(e, k, cap) <==> d * k <= x) by (nonlinear_arith)
        requires
            d == 100 - cap,
            x == cap * e,
    ;
    assert(d * k <= x <==> k <= f) by (nonlinear_arith)
        requires
            x == d * f + m,
            0 <= m < d,
            d > 0,
    ;
    assert(mint_exceeds_cap(e, k, cap, a) <==> d * (k + a) > x) by (nonlinear_arith)
        requires
            d == 100 - cap,
            x == cap * e,
    ;
    assert(d * (k + a) > x <==> k + a > f) by (nonlinear_arith)
        requires
            x == d * f + m,
            0 <= m < d,
            d > 0,
    ;
    assert(cap * (e + k) - 100 * k == x - d * k) by (nonlinear_arith)
        requires
            d == 100 - cap,
            x == cap * e,
    ;
    if x - d * k > 0 {
        assert(x - d * k == (f - k) * d + m) by (nonlinear_arith)
            requires
                x == d * f + m,
        ;
        vstd::arithmetic::div_mod::lemma_fundamental_div_mod_converse(x - d * k, d, f - k, m);
        assert(f >= k) by (nonlinear_arith)
            requires
                x - d * k == (f - k) * d + m,
                x - d * k > 0,
                0 <= m < d,
        ;
    } else {
        assert(f <= k) by (nonlinear_arith)
            requires
                x - d * k <= 0,
                x == d * f + m,
                0 <= m < d,
                d > 0,
        ;
    }
}

/// `carried` split along `e = (100 - cap) * q + m`.
proof fn lemma_carried_parts(e: int, cap: int, q: int, m: int)
    requires
        0 <= e,
        0 < cap < 100,
        q == e / (100 - cap),
        m == e % (100 - cap),
    ensures
        0 <= m < 100 - cap,
        0 <= q,
        0 <= cap * q <= carried(e, cap),
        carried(e, cap) == cap * q + (cap * m) / (100 - cap),
        0 <= cap * m <= 99 * 99,
{
    let d = 100 - cap;
    vstd::arithmetic::div_mod::lemma_fundamental_div_mod(e, d);
    vstd::arithmetic::div_mod::lemma_mod_pos_bound(e, d);
    assert(q >= 0) by (nonlinear_arith)
        requires
            e == d * q + m,
            0 <= m < d,
            e >= 0,
    ;
    let y = cap * m;
    assert(0 <= y <= 99 * 99) by (nonlinear_arith)
        requires
            y == cap * m,
            0 <= m < d,
            d == 100 - cap,
            0 < cap < 100,
    ;
    vstd::arithmetic::div_mod::lemma_fundamental_div_mod(y, d);
    vstd::arithmetic::div_mod::lemma_mod_pos_bound(y, d);
    assert(y / d >= 0) by (nonlinear_arith)
        requires
            y == d * (y / d) + y % d,
            0 <= y % d < d,
            y >= 0,
    ;
    assert(cap * e == (cap * q + y / d) * d + y % d) by (nonlinear_arith)
        requires
            e == d * q + m,
            y == cap * m,
            y == d * (y / d) + y % d,
    ;
    vstd::arithmetic::div_mod::lemma_fundamental_div_mod_converse(cap * e, d, cap * q + y / d, y % d);
    assert(0 <= cap * q) by (nonlinear_arith)
        requires
            q >= 0,
            cap > 0,
    ;
}

/// floor(cap * e / (100 - cap)), or `None` when it does not fit in a `u128`.
fn carried_by(e: i128, cap: u8) -> (r: Option<u128>)
    requires
        0 <= e,
        0 < cap < 100,
    ensures
        match r {
            Some(c) => c == carried(e as int, cap as int),
            None => carried(e as int, cap as int) > u128::MAX,
        },
{
    let d: u128 = 100 - cap as u128;
    let c: u128 = cap as u128;
    let ee: u128 = e as u128;
    let q = ee / d;
    let m = ee % d;
    proof {
        lemma_carried_parts(e as int, cap as int, q as int, m as int);
    }
    match c.checked_mul(q) {
        None => None,
        Some(cq) => {
            let part: u128 = (c * m) / d;
            cq.checked_add(part)
        },
    }
}

/// floor(100 * part / whole), computed by adding `part` a hundred times while
/// keeping the remainder below `whole`.
fn percent_of(part: u128, whole: u128) -> (r: u8)
    requires
        part <= whole,
        whole > 0,
    ensures
        r == (100 * part as int) / (whole as int),
{
    let mut q: u128 = 0;
    let mut rem: u128 = 0;
    let mut i: u128 = 0;
    while i < 100
        invariant
            0 <= i <= 100,
            part <= whole,
            whole > 0,
            q * whole + rem == i * part,
            rem < whole,
            q <= i,
        decreases 100 - i,
    {
        proof {
            assert((i + 1) * part == i * part + part) by (nonlinear_arith);
            assert((q + 1) * whole == q * whole + whole) by (nonlinear_arith);
        }
        if rem >= whole - part {
            rem = rem - (whole - part);
            q = q + 1;
        } else {
            rem = rem + part;
        }
        i = i + 1;
    }
    proof {
        vstd::arithmetic::div_mod::lemma_fundamental_div_mod_converse(
            100 * part as int,
            whole as int,
            q as int,
            rem as int,
        );
    }
    q as u8
}

proof fn lemma_share_at_most_100(k: int, total: int)
    requires
        0 <= k <= total,
        total > 0,
    ensures
        0 <= (100 * k) / total <= 100,
{
    assert(0 <= (100 * k) / total <= 100) by (nonlinear_arith)
        requires
            0 <= k <= total,
            total > 0,
    ;
}

proof fn lemma_cap_after_mint(e: int, k: int, cap: int, a: int)
    requires
        !mint_exceeds_cap(e, k, cap, a),
    ensures
        cap_holds(e, k + a, cap),
{
}

/// The kFIAT headroom is exact: a positive mint passes the cap exactly when it
/// is larger than `headroom`.
pub proof fn lemma_headroom_is_exact(e: int, k: int, cap: int, a: int)
    requires
        0 <= e,
        0 <= k,
        0 < cap < 100,
        a > 0,
    ensures
        mint_exceeds_cap(e, k, cap, a) <==> a > headroom(e, k, cap),
{
    lemma_carried(e, k, cap, a);
}

/// Burning kFIAT never breaches the cap: if the cap holds, it still holds with
/// less kFIAT.
pub proof fn lemma_burning_kfiat_keeps_cap(e: int, k: int, k_after: int, cap: int)
    requires
        0 <= e,
        0 <= k_after <= k,
        0 < cap < 100,
        cap_holds(e, k, cap),
    ensures
        cap_holds(e, k_after, cap),
{
    assert(cap_holds(e, k_after, cap)) by (nonlinear_arith)
        requires
            100 * k <= cap * (e + k),
            0 <= k_after <= k,
            0 < cap < 100,
    ;
}

/// More ENRK never hurts the cap: if it holds, it still holds with more senior
/// debt, and the kFIAT headroom can only grow.
pub proof fn lemma_minting_enrk_keeps_cap(e: int, e_after: int, k: int, cap: int)
    requires
        0 <= e <= e_after,
        0 <= k,
        0 < cap < 100,
    ensures
        cap_holds(e, k, cap) ==> cap_holds(e_after, k, cap),
        headroom(e, k, cap) <= headroom(e_after, k, cap),
{
    assert(cap * (e + k) <= cap * (e_after + k)) by (nonlinear_arith)
        requires
            0 <= e <= e_after,
            0 < cap,
    ;
    let n1 = cap * (e + k) - 100 * k;
    let n2 = cap * (e_after + k) - 100 * k;
    if n1 > 0 {
        vstd::arithmetic::div_mod::lemma_div_is_ordered(n1, n2, 100 - cap);
    }
}

/// Burning what was just minted undoes the mint: after a successful mint of
/// `amount` to `to`, burning `amount` from `to` succeeds, returns the balance
/// `to` had before the mint, and restores the supply, every balance and the set
/// of holders.
pub proof fn lemma_burn_undoes_mint(
    l0: TokenLedger,
    l1: TokenLedger,
    l2: TokenLedger,
    to: &str,
    amount: i128,
    limit: int,
    minted: i128,
    r: IgraResult<i128>,
)
    requires
        l0.wf(),
        mint_outcome(l0, l1, to, amount, limit, Ok::<i128, IgraError>(minted)),
        burn_outcome(l1, l2, to, amount, r),
    ensures
        r == Ok::<i128, IgraError>(l0.balance(to@) as i128),
        l2.supply() == l0.supply(),
        forall|a: Seq<char>| #![trigger l2.balance(a)] l2.balance(a) == l0.balance(a),
        l2.holders() == l0.holders(),
{
    l0.lemma_wf_facts();
    l1.lemma_wf_facts();
    l2.lemma_wf_facts();
    assert(l1.balance(to@) == l0.balance(to@) + amount);
    assert forall|a: Seq<char>| #![trigger l2.balance(a)] l2.balance(a) == l0.balance(a) by {
        assert(l1.balance(a) == l0.balance(a) + if a == to@ { amount as int } else { 0 });
    }
    assert(l2.holders() =~= l0.holders()) by {
        assert forall|a: Seq<char>| l2.holders().contains(a) <==> l0.holders().contains(a) by {
            assert(l2.balance(a) == l0.balance(a));
        }
    }
}

/// A transfer is undone by the transfer back: after a successful transfer of
/// `amount` from `from` to `to`, transferring `amount` from `to` back to `from`
/// succeeds and restores the supply, every balance and the set of holders.
pub proof fn lemma_transfer_back_restores(
    l0: TokenLedger,
    l1: TokenLedger,
    l2: TokenLedger,
    from: &str,
    to: &str,
    amount: i128,
    r: IgraResult<()>,
)
    requires
        l0.wf(),
        transfer_outcome(l0, l1, from, to, amount, Ok::<(), IgraError>(())),
        transfer_outcome(l1, l2, to, from, amount, r),
    ensures
        r is Ok,
        l2.supply() == l0.supply(),
        forall|a: Seq<char>| #![trigger l2.balance(a)] l2.balance(a) == l0.balance(a),
        l2.holders() == l0.holders(),
{
    l0.lemma_wf_facts();
    l1.lemma_wf_facts();
    l2.lemma_wf_facts();
    assert(l1.balance(to@) == l0.balance(to@) + amount);
    assert forall|a: Seq<char>| #![trigger l2.balance(a)] l2.balance(a) == l0.balance(a) by {
        assert(l1.balance(a) == l0.balance(a) - (if a == from@ { amount as int } else { 0 }) + (
        if a == to@ { amount as int } else { 0 }));
    }
    assert(l2.holders() =~= l0.holders()) by {
        assert forall|a: Seq<char>| l2.holders().contains(a) <==> l0.holders().contains(a) by {
            assert(l2.balance(a) == l0.balance(a));
        }
    }
}

} // verus!
