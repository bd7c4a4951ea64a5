//! Plain-value models of the identifiers the contracts compare: account and
//! contract addresses (by their 56-character strkey), 32-byte hashes and
//! references, and system-parameter symbols.
use vstd::prelude::*;

verus! {

broadcast use vstd::array::group_array_axioms;

/// Length of a Stellar strkey (`G...` accounts and `C...` contracts).
pub const STRKEY_LEN: usize = 56;

/// An account or contract address, held as the ASCII bytes of its strkey.
#[derive(Clone, Copy, Debug, PartialEq, Eq, Hash)]
pub struct Address {
    pub strkey: [u8; 56],
}

/// The strkey of the all-zero account, `GAAA…AWHF`, which no contract accepts
/// as an admin, recovery, governance, merchant, asset or anchor address.
pub open spec fn zero_strkey() -> Seq<u8> {
    Seq::new(56, |i: int| if i == 0 { 71u8 } else if i < 53 { 65u8 } else if i == 53 { 87u8 } else if i == 54 { 72u8 } else { 70u8 })
}

/// Byte-wise equality of two equally long byte arrays.
pub fn bytes_eq<const N: usize>(a: &[u8; N], b: &[u8; N]) -> (r: bool)
    ensures
        r == (*a == *b),
{
    let mut i: usize = 0;
    while i < N
        invariant
            i <= N,
            a@.len() == N,
            b@.len() == N,
            forall|k: int| 0 <= k < i ==> a@[k] == b@[k],
        decreases N - i,
    {
        if a[i] != b[i] {
            return false;
        }
        i = i + 1;
    }
    assert(*a =~= *b);
    true
}

/// Whether every byte of `a` is zero.
pub fn all_zero<const N: usize>(a: &[u8; N]) -> (r: bool)
    ensures
        r == (forall|k: int| 0 <= k < N ==> a@[k] == 0),
{
    let mut i: usize = 0;
    while i < N
        invariant
            i <= N,
            a@.len() == N,
            forall|k: int| 0 <= k < i ==> a@[k] == 0,
        decreases N - i,
    {
        if a[i] != 0 {
            return false;
        }
        i = i + 1;
    }
    true
}

impl Address {
    /// Builds an address from the bytes of its strkey.
    pub fn new(strkey: [u8; 56]) -> (r: Address)
        ensures
            r.strkey == strkey,
    {
        Address { strkey }
    }

    /// Whether two addresses are the same address.
    pub fn same_as(&self, other: &Address) -> (r: bool)
        ensures
            r == (*self == *other),
    {
        bytes_eq(&self.strkey, &other.strkey)
    }

    /// Whether this is the all-zero account address.
    pub fn is_zero(&self) -> (r: bool)
        ensures
            r == (self.strkey@ == zero_strkey()),
    {
        let mut i: usize = 0;
        while i < 56
            invariant
                i <= 56,
                self.strkey@.len() == 56,
                forall|k: int| 0 <= k < i ==> self.strkey@[k] == zero_strkey()[k],
            decreases 56 - i,
        {
            let expected: u8 = if i == 0 { 71 } else if i < 53 { 65 } else if i == 53 { 87 } else if i == 54 { 72 } else { 70 };
            if self.strkey[i] != expected {
                return false;
            }
            i = i + 1;
        }
        assert(self.strkey@ =~= zero_strkey());
        true
    }

    /// The all-zero account address, as a spec value.
    pub open spec fn zero_spec() -> Address {
        Address { strkey: choose|k: [u8; 56]| k@ == zero_strkey() }
    }

    /// The all-zero account address.
    pub fn zero() -> (r: Address)
        ensures
            r.strkey@ == zero_strkey(),
            r == Address::zero_spec(),
    {
        let mut key: [u8; 56] = [65u8; 56];
        key[0] = 71;
        key[53] = 87;
        key[54] = 72;
        key[55] = 70;
        assert(key@ =~= zero_strkey());
        proof {
            let chosen = choose|k: [u8; 56]| k@ == zero_strkey();
            assert(chosen@ == zero_strkey());
            assert(key =~= chosen) by {
                assert forall|i: int| 0 <= i < 56 implies key[i] == chosen[i] by {
                    assert(key@[i] == chosen@[i]);
                }
            }
        }
        Address { strkey: key }
    }

    /// A list holding the single address `a`.
    pub fn single(a: Address) -> (r: Vec<Address>)
        ensures
            r@ == seq![a],
    {
        let mut r: Vec<Address> = Vec::new();
        r.push(a);
        assert(r@ =~= seq![a]);
        r
    }
}

/// `a` is the all-zero account address.
pub open spec fn is_zero_address(a: Address) -> bool {
    a.strkey@ == zero_strkey()
}

/// A copy of a list of addresses.
pub fn copy_addresses(s: &Vec<Address>) -> (r: Vec<Address>)
    ensures
        r@ == s@,
{
    let mut r: Vec<Address> = Vec::new();
    let mut i: usize = 0;
    while i < s.len()
        invariant
            i <= s@.len(),
            r@ == s@.subrange(0, i as int),
        decreases s@.len() - i,
    {
        r.push(s[i]);
        i = i + 1;
        assert(r@ =~= s@.subrange(0, i as int));
    }
    assert(r@ =~= s@);
    r
}

/// Whether two lists hold the same addresses in the same order.
pub fn same_addresses(a: &Vec<Address>, b: &Vec<Address>) -> (r: bool)
    ensures
        r == (a@ == b@),
{
    if a.len() != b.len() {
        return false;
    }
    let mut i: usize = 0;
    while i < a.len()
        invariant
            i <= a@.len(),
            a@.len() == b@.len(),
            forall|k: int| 0 <= k < i ==> a@[k] == b@[k],
        decreases a@.len() - i,
    {
        if !a[i].same_as(&b[i]) {
            return false;
        }
        i = i + 1;
    }
    assert(a@ =~= b@);
    true
}

/// Whether two byte strings are equal.
pub fn same_bytes(a: &Vec<u8>, b: &Vec<u8>) -> (r: bool)
    ensures
        r == (a@ == b@),
{
    if a.len() != b.len() {
        return false;
    }
    let mut i: usize = 0;
    while i < a.len()
        invariant
            i <= a@.len(),
            a@.len() == b@.len(),
            forall|k: int| 0 <= k < i ==> a@[k] == b@[k],
        decreases a@.len() - i,
    {
        if a[i] != b[i] {
            return false;
        }
        i = i + 1;
    }
    assert(a@ =~= b@);
    true
}

/// Whether `s` contains `a`.
pub fn contains_address(s: &Vec<Address>, a: &Address) -> (r: bool)
    ensures
        r == s@.contains(*a),
{
    let mut i: usize = 0;
    while i < s.len()
        invariant
            i <= s@.len(),
            forall|k: int| 0 <= k < i ==> s@[k] != *a,
        decreases s@.len() - i,
    {
        if s[i].same_as(a) {
            assert(s@[i as int] == *a);
            return true;
        }
        i = i + 1;
    }
    false
}

/// A 32-byte hash or payment reference.
pub type Hash32 = [u8; 32];

/// A system-parameter key: 32 bytes that identify the parameter's symbol
/// (the host derives them from the symbol, one key per symbol).
#[derive(Clone, Copy, Debug, PartialEq, Eq, Hash)]
pub struct ParamKey {
    pub bytes: [u8; 32],
}

/// The key under which a payment record is stored: payment references are
/// unique per merchant, not globally.
#[derive(Clone, Copy, Debug, PartialEq, Eq, Hash)]
pub struct PaymentKey {
    pub merchant: Address,
    pub reference: [u8; 32],
}

} // verus!
