//! Storage keys: which cell of the contract account holds which value.

use vstd::prelude::*;
use vstd::string::*;

verus! {

/// The sixteen digits in which a lender's address hash is written.
pub open spec fn hex_digits() -> Seq<char> {
    "0123456789abcdef"@
}

/// The `i`-th four-bit group of `hash`, counted from the most significant.
pub open spec fn nibble(hash: u32, i: int) -> u32 {
    (hash >> ((28 - 4 * i) as u32)) & 0xF
}

/// The eight digits of `hash`, most significant first.
pub open spec fn hex8(hash: u32) -> Seq<char> {
    Seq::new(8, |i: int| hex_digits()[nibble(hash, i) as int])
}

/// The key under which the balance of the lender with address hash `hash` is
/// kept: `vm_` followed by the hash in eight lower-case hex digits.
pub open spec fn lender_key(hash: u32) -> Seq<char> {
    "vm_"@ + hex8(hash)
}

/// Builds the storage key of a lender's balance.
pub fn lender_key_str(addr_hash: u32) -> (key: String)
    ensures
        key@ == lender_key(addr_hash),
{
    let digits = "0123456789abcdef";
    let mut key = String::from_str("vm_");
    proof {
        reveal_strlit("0123456789abcdef");
    }
    let mut i: u32 = 0;
    while i < 8
        invariant
            i <= 8,
            digits@ == hex_digits(),
            digits@.len() == 16,
            is_ascii(digits),
            key@ == "vm_"@ + hex8(addr_hash).take(i as int),
        decreases 8 - i,
    {
        let shift: u32 = 28 - 4 * i;
        let n: u32 = (addr_hash >> shift) & 0xF;
        assert(n < 16) by (bit_vector)
            requires
                n == (addr_hash >> shift) & 0xF,
        ;
        let at: usize = n as usize;
        let digit = digits.substring_ascii(at, at + 1);
        key.append(digit);
        proof {
            assert(digit@ =~= seq![hex_digits()[nibble(addr_hash, i as int) as int]]);
            assert(hex8(addr_hash).take(i + 1) =~= hex8(addr_hash).take(i as int).push(
                hex8(addr_hash)[i as int],
            ));
        }
        i += 1;
    }
    assert(hex8(addr_hash).take(8) =~= hex8(addr_hash));
    key
}

/// A cell of the contract account that holds a 32-bit count.
#[derive(Clone, Copy, Debug, PartialEq, Eq, Structural)]
pub enum Cell32 {
    /// The counter contract's single value.
    Counter,
    /// How many lenders of the vault have a balance above zero.
    VaultMembers,
}

/// A cell of the contract account that holds a 64-bit amount, in cents.
#[derive(Clone, Copy, Debug, PartialEq, Eq, Structural)]
pub enum Cell64 {
    /// The sum of all that the vault holds.
    VaultTotal,
    /// The balance of the lender with this address hash.
    Lender(u32),
}

impl Cell32 {
    /// The key of the cell in the account's flat key space.
    pub open spec fn spec_key(self) -> Seq<char> {
        match self {
            Cell32::Counter => "counter"@,
            Cell32::VaultMembers => "vault_members"@,
        }
    }

    /// The key of the cell, as the host takes it.
    pub fn key(&self) -> (key: String)
        ensures
            key@ == self.spec_key(),
    {
        match self {
            Cell32::Counter => String::from_str("counter"),
            Cell32::VaultMembers => String::from_str("vault_members"),
        }
    }
}

impl Cell64 {
    /// The key of the cell in the account's flat key space.
    pub open spec fn spec_key(self) -> Seq<char> {
        match self {
            Cell64::VaultTotal => "vault_total"@,
            Cell64::Lender(hash) => lender_key(hash),
        }
    }

    /// The key of the cell, as the host takes it.
    pub fn key(&self) -> (key: String)
        ensures
            key@ == self.spec_key(),
    {
        match self {
            Cell64::VaultTotal => String::from_str("vault_total"),
            Cell64::Lender(hash) => lender_key_str(*hash),
        }
    }
}

/// No digit stands for two values.
proof fn lemma_digits_differ(a: u32, b: u32)
    requires
        a < 16,
        b < 16,
        hex_digits()[a as int] == hex_digits()[b as int],
    ensures
        a == b,
{
    reveal_strlit("0123456789abcdef");
}

/// A hash is made of its eight four-bit groups.
proof fn lemma_nibbles_make_hash(h1: u32, h2: u32)
    requires
        forall|i: int| 0 <= i < 8 ==> nibble(h1, i) == nibble(h2, i),
    ensures
        h1 == h2,
{
    assert(nibble(h1, 0) == nibble(h2, 0));
    assert(nibble(h1, 1) == nibble(h2, 1));
    assert(nibble(h1, 2) == nibble(h2, 2));
    assert(nibble(h1, 3) == nibble(h2, 3));
    assert(nibble(h1, 4) == nibble(h2, 4));
    assert(nibble(h1, 5) == nibble(h2, 5));
    assert(nibble(h1, 6) == nibble(h2, 6));
    assert(nibble(h1, 7) == nibble(h2, 7));
    assert(h1 == h2) by (bit_vector)
        requires
            (h1 >> 28u32) & 0xF == (h2 >> 28u32) & 0xF,
            (h1 >> 24u32) & 0xF == (h2 >> 24u32) & 0xF,
            (h1 >> 20u32) & 0xF == (h2 >> 20u32) & 0xF,
            (h1 >> 16u32) & 0xF == (h2 >> 16u32) & 0xF,
            (h1 >> 12u32) & 0xF == (h2 >> 12u32) & 0xF,
            (h1 >> 8u32) & 0xF == (h2 >> 8u32) & 0xF,
            (h1 >> 4u32) & 0xF == (h2 >> 4u32) & 0xF,
            (h1 >> 0u32) & 0xF == (h2 >> 0u32) & 0xF,
    ;
}

/// A four-bit group is below sixteen.
proof fn lemma_nibble_bound(hash: u32, i: int)
    requires
        0 <= i < 8,
    ensures
        nibble(hash, i) < 16,
{
    let shift = (28 - 4 * i) as u32;
    assert((hash >> shift) & 0xF < 16) by (bit_vector);
}

/// Every lender key is eleven characters long and made of ASCII.
pub proof fn lender_key_shape(hash: u32)
    ensures
        lender_key(hash).len() == 11,
        lender_key(hash).subrange(0, 3) == "vm_"@,
        forall|i: int|
            0 <= i < 8 ==> hex_digits().contains(#[trigger] lender_key(hash)[3 + i]),
{
    reveal_strlit("vm_");
    reveal_strlit("0123456789abcdef");
    assert(lender_key(hash).subrange(0, 3) =~= "vm_"@);
    assert forall|i: int| 0 <= i < 8 implies hex_digits().contains(
        #[trigger] lender_key(hash)[3 + i],
    ) by {
        lemma_nibble_bound(hash, i);
        assert(lender_key(hash)[3 + i] == hex_digits()[nibble(hash, i) as int]);
    }
}

/// Two lenders never share a key: different address hashes give different
/// keys.
pub proof fn lender_key_injective(h1: u32, h2: u32)
    requires
        h1 != h2,
    ensures
        lender_key(h1) != lender_key(h2),
{
    reveal_strlit("vm_");
    if lender_key(h1) == lender_key(h2) {
        assert forall|i: int| 0 <= i < 8 implies nibble(h1, i) == nibble(h2, i) by {
            lemma_nibble_bound(h1, i);
            lemma_nibble_bound(h2, i);
            assert(lender_key(h1)[3 + i] == hex_digits()[nibble(h1, i) as int]);
            assert(lender_key(h2)[3 + i] == hex_digits()[nibble(h2, i) as int]);
            lemma_digits_differ(nibble(h1, i), nibble(h2, i));
        }
        lemma_nibbles_make_hash(h1, h2);
    }
}

/// Different 64-bit cells lie under different keys, so a write to one never
/// reaches another.
pub proof fn cell64_keys_differ(a: Cell64, b: Cell64)
    requires
        a != b,
    ensures
        a.spec_key() != b.spec_key(),
{
    reveal_strlit("vm_");
    reveal_strlit("vault_total");
    match (a, b) {
        (Cell64::Lender(h1), Cell64::Lender(h2)) => {
            lender_key_injective(h1, h2);
        },
        (Cell64::Lender(h), Cell64::VaultTotal) => {
            assert(lender_key(h)[1] == 'm');
        },
        (Cell64::VaultTotal, Cell64::Lender(h)) => {
            assert(lender_key(h)[1] == 'm');
        },
        (Cell64::VaultTotal, Cell64::VaultTotal) => {},
    }
}

/// Different 32-bit cells lie under different keys.
pub proof fn cell32_keys_differ(a: Cell32, b: Cell32)
    requires
        a != b,
    ensures
        a.spec_key() != b.spec_key(),
{
    reveal_strlit("counter");
    reveal_strlit("vault_members");
    assert("counter"@.len() == 7);
    assert("vault_members"@.len() == 13);
}

} // verus!
