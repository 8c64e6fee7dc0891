//! Kaspa network adapter: address validation and the identifiers of the
//! transactions that move collateral and tokens.
//!
//! Amounts are whole KAS; 1 KAS = 100,000,000 sompi.
use vstd::prelude::*;
use vstd::string::*;
use crate::errors::{IgraError, IgraResult, invalid_parameters};

verus! {

/// 1 KAS = 100 million sompi.
pub const SOMPI_PER_KAS: u64 = 100_000_000;

/// `p` is a prefix of `s`.
pub open spec fn has_prefix(s: Seq<char>, p: Seq<char>) -> bool {
    p.len() <= s.len() && s.subrange(0, p.len() as int) == p
}

/// The first `n` characters of `s`, or all of `s` when it is shorter.
pub open spec fn first_chars(s: Seq<char>, n: nat) -> Seq<char> {
    if s.len() <= n {
        s
    } else {
        s.subrange(0, n as int)
    }
}

/// Whether `s` starts with `prefix`, compared character by character.
pub fn starts_with(s: &str, prefix: &str) -> (r: bool)
    ensures
        r == has_prefix(s@, prefix@),
{
    let n = prefix.unicode_len();
    let m = s.unicode_len();
    if n > m {
        return false;
    }
    let mut i: usize = 0;
    while i < n
        invariant
            0 <= i <= n,
            n == prefix@.len(),
            m == s@.len(),
            n <= m,
            forall|j: int| 0 <= j < i ==> s@[j] == prefix@[j],
        decreases n - i,
    {
        if s.get_char(i) != prefix.get_char(i) {
            return false;
        }
        i += 1;
    }
    assert(s@.subrange(0, n as int) =~= prefix@);
    true
}

/// The first `n` characters of `s` (all of it when shorter), as a new string.
pub fn take_chars(s: &str, n: usize) -> (r: String)
    ensures
        r@ == first_chars(s@, n as nat),
{
    let len = s.unicode_len();
    let end = if len <= n { len } else { n };
    let piece = s.substring_char(0, end);
    let r = String::from_str(piece);
    proof {
        if len <= n {
            assert(s@.subrange(0, len as int) =~= s@);
        }
    }
    r
}

/// Kaspa address validation.
pub struct KaspaAddressValidator;

impl KaspaAddressValidator {
    pub open spec fn mainnet_spec(address: &str) -> bool {
        has_prefix(address@, "kaspa:"@) && (address.spec_bytes().len() as usize) > 10
    }

    pub open spec fn testnet_spec(address: &str) -> bool {
        has_prefix(address@, "kaspatest:"@) && (address.spec_bytes().len() as usize) > 15
    }

    pub open spec fn address_spec(address: &str) -> bool {
        Self::mainnet_spec(address) || Self::testnet_spec(address)
    }

    /// A mainnet address starts with `kaspa:` and is longer than 10 bytes.
    pub fn is_valid_mainnet_address(address: &str) -> (r: bool)
        ensures
            r == Self::mainnet_spec(address),
    {
        starts_with(address, "kaspa:") && address.len() > 10
    }

    /// A testnet address starts with `kaspatest:` and is longer than 15 bytes.
    pub fn is_valid_testnet_address(address: &str) -> (r: bool)
        ensures
            r == Self::testnet_spec(address),
    {
        starts_with(address, "kaspatest:") && address.len() > 15
    }

    /// An address is valid when it is valid on either network.
    pub fn is_valid_address(address: &str) -> (r: bool)
        ensures
            r == Self::address_spec(address),
    {
        Self::is_valid_mainnet_address(address) || Self::is_valid_testnet_address(address)
    }
}

/// Builds the identifiers of the protocol's Kaspa transactions.
pub struct KaspaTransactionBuilder;

impl KaspaTransactionBuilder {
    pub open spec fn two_party_id(kind: Seq<char>, a: &str, b: &str) -> Seq<char> {
        kind + first_chars(a@, 8) + "_"@ + first_chars(b@, 8)
    }

    fn two_party_tx(kind: &str, a: &str, b: &str) -> (r: String)
        ensures
            r@ == Self::two_party_id(kind@, a, b),
    {
        let mut r = String::from_str(kind);
        let head_a = take_chars(a, 8);
        r.append(head_a.as_str());
        r.append("_");
        let head_b = take_chars(b, 8);
        r.append(head_b.as_str());
        r
    }

    /// A collateral deposit from a user to a vault. Both addresses must be
    /// non-empty and the amount positive; the identifier is `tx_deposit_`, the
    /// first 8 characters of the sender, `_`, and the first 8 of the vault.
    pub fn build_deposit_tx(from_address: &str, to_vault_address: &str, amount_kas: i128) -> (r:
        IgraResult<String>)
        ensures
            from_address@.len() == 0 || to_vault_address@.len() == 0 ==> invalid_parameters(
                r,
                "Addresses cannot be empty"@,
            ),
            from_address@.len() > 0 && to_vault_address@.len() > 0 && amount_kas <= 0
                ==> invalid_parameters(r, "Deposit amount must be positive"@),
            r matches Ok(id) ==> from_address@.len() > 0 && to_vault_address@.len() > 0
                && amount_kas > 0 && id@ == Self::two_party_id(
                "tx_deposit_"@,
                from_address,
                to_vault_address,
            ),
            from_address@.len() > 0 && to_vault_address@.len() > 0 && amount_kas > 0 ==> r is Ok,
    {
        if from_address.is_empty() || to_vault_address.is_empty() {
            return Err(IgraError::InvalidParameters(String::from_str("Addresses cannot be empty")));
        }
        if amount_kas <= 0 {
            return Err(
                IgraError::InvalidParameters(String::from_str("Deposit amount must be positive")),
            );
        }
        Ok(Self::two_party_tx("tx_deposit_", from_address, to_vault_address))
    }
    /// Settlement of a liquidation: collateral moves from a vault to the
    /// liquidator. Both addresses must be non-empty and the collateral positive;
    /// the identifier is `tx_liquidate_`, the first 8 characters of the vault,
    /// `_`, and the first 8 of the liquidator.
    pub fn build_liquidation_tx(vault_address: &str, liquidator_address: &str, collateral_kas: i128) -> (r:
        IgraResult<String>)
        ensures
            vault_address@.len() == 0 || liquidator_address@.len() == 0 ==> invalid_parameters(
                r,
                "Addresses cannot be empty"@,
            ),
            vault_address@.len() > 0 && liquidator_address@.len() > 0 && collateral_kas <= 0
                ==> invalid_parameters(r, "Collateral must be positive"@),
            r matches Ok(id) ==> vault_address@.len() > 0 && liquidator_address@.len() > 0
                && collateral_kas > 0 && id@ == Self::two_party_id(
                "tx_liquidate_"@,
                vault_address,
                liquidator_address,
            ),
            vault_address@.len() > 0 && liquidator_address@.len() > 0 && collateral_kas > 0
                ==> r is Ok,
    {
        if vault_address.is_empty() || liquidator_address.is_empty() {
            return Err(IgraError::InvalidParameters(String::from_str("Addresses cannot be empty")));
        }
        if collateral_kas <= 0 {
            return Err(IgraError::InvalidParameters(String::from_str("Collateral must be positive")));
        }
        Ok(Self::two_party_tx("tx_liquidate_", vault_address, liquidator_address))
    }

    fn mint_tx(kind: &str, to_address: &str, amount: i128) -> (r: IgraResult<String>)
        ensures
            to_address@.len() == 0 ==> invalid_parameters(r, "Address cannot be empty"@),
            to_address@.len() > 0 && amount <= 0 ==> invalid_parameters(
                r,
                "Mint amount must be positive"@,
            ),
            r matches Ok(id) ==> to_address@.len() > 0 && amount > 0 && id@ == kind@ + first_chars(
                to_address@,
                12,
            ),
            to_address@.len() > 0 && amount > 0 ==> r is Ok,
    {
        if to_address.is_empty() {
            return Err(IgraError::InvalidParameters(String::from_str("Address cannot be empty")));
        }
        if amount <= 0 {
            return Err(IgraError::InvalidParameters(String::from_str("Mint amount must be positive")));
        }
        let mut id = String::from_str(kind);
        let head = take_chars(to_address, 12);
        id.append(head.as_str());
        Ok(id)
    }

    /// Minting of ENRK to an address. The address must be non-empty and the
    /// amount positive; the identifier is `tx_mint_enrk_` and the first 12
    /// characters of the address.
    pub fn build_enrk_mint_tx(to_address: &str, amount_enrk: i128) -> (r: IgraResult<String>)
        ensures
            to_address@.len() == 0 ==> invalid_parameters(r, "Address cannot be empty"@),
            to_address@.len() > 0 && amount_enrk <= 0 ==> invalid_parameters(
                r,
                "Mint amount must be positive"@,
            ),
            r matches Ok(id) ==> to_address@.len() > 0 && amount_enrk > 0 && id@ == "tx_mint_enrk_"@
                + first_chars(to_address@, 12),
            to_address@.len() > 0 && amount_enrk > 0 ==> r is Ok,
    {
        Self::mint_tx("tx_mint_enrk_", to_address, amount_enrk)
    }

    /// Minting of kFIAT to an address. The address must be non-empty and the
    /// amount positive; the identifier is `tx_mint_kfiat_` and the first 12
    /// characters of the address.
    pub fn build_kfiat_mint_tx(to_address: &str, amount_kfiat: i128) -> (r: IgraResult<String>)
        ensures
            to_address@.len() == 0 ==> invalid_parameters(r, "Address cannot be empty"@),
            to_address@.len() > 0 && amount_kfiat <= 0 ==> invalid_parameters(
                r,
                "Mint amount must be positive"@,
            ),
            r matches Ok(id) ==> to_address@.len() > 0 && amount_kfiat > 0 && id@
                == "tx_mint_kfiat_"@ + first_chars(to_address@, 12),
            to_address@.len() > 0 && amount_kfiat > 0 ==> r is Ok,
    {
        Self::mint_tx("tx_mint_kfiat_", to_address, amount_kfiat)
    }
}

/// The characters taken from the front of `s` are a prefix of `s`: as many as
/// `n` or all of `s`, whichever is fewer, each equal to the character of `s` at
/// the same position.
pub proof fn lemma_first_chars_is_prefix(s: Seq<char>, n: nat)
    ensures
        first_chars(s, n).len() == if s.len() <= n {
            s.len() as int
        } else {
            n as int
        },
        forall|i: int| 0 <= i < first_chars(s, n).len() ==> #[trigger] first_chars(s, n)[i] == s[i],
{
}

/// A two-party transaction identifier is the kind, then the leading characters
/// of the first address (at most 8), then `_`, then the leading characters of
/// the second address (at most 8).
pub proof fn lemma_two_party_id_layout(kind: Seq<char>, a: &str, b: &str)
    ensures
        ({
            let id = KaspaTransactionBuilder::two_party_id(kind, a, b);
            let la: int = if a@.len() <= 8 {
                a@.len() as int
            } else {
                8
            };
            let lb: int = if b@.len() <= 8 {
                b@.len() as int
            } else {
                8
            };
            &&& id.len() == kind.len() + la + 1 + lb
            &&& forall|i: int| 0 <= i < kind.len() ==> id[i] == kind[i]
            &&& forall|i: int| 0 <= i < la ==> id[kind.len() + i] == a@[i]
            &&& id[kind.len() + la] == '_'
            &&& forall|i: int| 0 <= i < lb ==> id[kind.len() + la + 1 + i] == b@[i]
        }),
{
    reveal_strlit("_");
    lemma_first_chars_is_prefix(a@, 8);
    lemma_first_chars_is_prefix(b@, 8);
    let pa = first_chars(a@, 8);
    let pb = first_chars(b@, 8);
    let id = KaspaTransactionBuilder::two_party_id(kind, a, b);
    assert(id == kind + pa + seq!['_'] + pb);
    assert forall|i: int| 0 <= i < pa.len() implies id[kind.len() + i] == a@[i] by {
        assert(id[kind.len() + i] == pa[i]);
    }
    assert forall|i: int| 0 <= i < pb.len() implies id[kind.len() + pa.len() + 1 + i] == b@[i] by {
        assert(id[kind.len() + pa.len() + 1 + i] == pb[i]);
    }
}

/// The characters of the mainnet prefix `kaspa:`.
pub open spec fn mainnet_prefix() -> Seq<char> {
    seq!['k', 'a', 's', 'p', 'a', ':']
}

/// The characters of the testnet prefix `kaspatest:`.
pub open spec fn testnet_prefix() -> Seq<char> {
    seq!['k', 'a', 's', 'p', 'a', 't', 'e', 's', 't', ':']
}

/// A string is a valid mainnet address exactly when its first six characters
/// are `kaspa:` and it is longer than 10 bytes, however long it is.
pub proof fn lemma_mainnet_validity(address: &str)
    requires
        address.spec_bytes().len() <= usize::MAX,
    ensures
        KaspaAddressValidator::mainnet_spec(address) <==> (address@.len() >= 6 && address@.take(6)
            == mainnet_prefix() && address.spec_bytes().len() > 10),
{
    reveal_strlit("kaspa:");
    assert("kaspa:"@ =~= mainnet_prefix());
}

/// A string is a valid testnet address exactly when its first ten characters
/// are `kaspatest:` and it is longer than 15 bytes, however long it is.
pub proof fn lemma_testnet_validity(address: &str)
    requires
        address.spec_bytes().len() <= usize::MAX,
    ensures
        KaspaAddressValidator::testnet_spec(address) <==> (address@.len() >= 10 && address@.take(10)
            == testnet_prefix() && address.spec_bytes().len() > 15),
{
    reveal_strlit("kaspatest:");
    assert("kaspatest:"@ =~= testnet_prefix());
}

/// Appending characters to a valid address keeps it valid, on either network.
pub proof fn lemma_validity_survives_extension(a: &str, b: &str)
    requires
        a@.len() <= b@.len(),
        b@.take(a@.len() as int) == a@,
        a.spec_bytes().len() <= b.spec_bytes().len() <= usize::MAX,
    ensures
        KaspaAddressValidator::mainnet_spec(a) ==> KaspaAddressValidator::mainnet_spec(b),
        KaspaAddressValidator::testnet_spec(a) ==> KaspaAddressValidator::testnet_spec(b),
        KaspaAddressValidator::address_spec(a) ==> KaspaAddressValidator::address_spec(b),
{
    lemma_mainnet_validity(a);
    lemma_mainnet_validity(b);
    lemma_testnet_validity(a);
    lemma_testnet_validity(b);
    if a@.len() >= 6 {
        assert(b@.take(6) =~= a@.take(6)) by {
            assert forall|i: int| 0 <= i < 6 implies b@.take(6)[i] == a@.take(6)[i] by {
                assert(b@.take(a@.len() as int)[i] == b@[i]);
            }
        }
    }
    if a@.len() >= 10 {
        assert(b@.take(10) =~= a@.take(10)) by {
            assert forall|i: int| 0 <= i < 10 implies b@.take(10)[i] == a@.take(10)[i] by {
                assert(b@.take(a@.len() as int)[i] == b@[i]);
            }
        }
    }
}

} // verus!
