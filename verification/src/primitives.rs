//! Fixed-width values of the Ethereum data model: 256-bit integers, hashes, addresses
//! and byte strings.

use vstd::prelude::*;

verus! {

/// The number of values that a 64-bit limb can take.
pub open spec fn limb_base() -> nat {
    0x1_0000_0000_0000_0000
}

/// The number of values that a [`U256`] can take.
pub open spec fn u256_bound() -> nat {
    limb_base() * limb_base() * limb_base() * limb_base()
}

/// A 256-bit unsigned integer: four 64-bit limbs, the least significant first.
#[derive(Clone, Copy, Debug)]
pub struct U256(pub [u64; 4]);

impl View for U256 {
    type V = nat;

    open spec fn view(&self) -> nat {
        (self.0[0] + 0x1_0000_0000_0000_0000 * self.0[1]
            + 0x1_0000_0000_0000_0000_0000_0000_0000_0000 * self.0[2]
            + 0x1_0000_0000_0000_0000_0000_0000_0000_0000_0000_0000_0000_0000 * self.0[3]) as nat
    }
}

impl PartialEq for U256 {
    fn eq(&self, other: &U256) -> (r: bool) {
        let same = self.0[0] == other.0[0] && self.0[1] == other.0[1] && self.0[2] == other.0[2]
            && self.0[3] == other.0[3];
        proof {
            if same {
                assert(self.0 =~= other.0);
            }
        }
        same
    }
}

impl Eq for U256 {

}

impl vstd::std_specs::cmp::PartialEqSpecImpl for U256 {
    open spec fn obeys_eq_spec() -> bool {
        true
    }

    open spec fn eq_spec(&self, other: &U256) -> bool {
        *self == *other
    }
}

impl From<u64> for U256 {
    fn from(v: u64) -> (r: U256) {
        U256([v, 0, 0, 0])
    }
}

impl vstd::std_specs::convert::FromSpecImpl<u64> for U256 {
    open spec fn obeys_from_spec() -> bool {
        true
    }

    open spec fn from_spec(v: u64) -> U256 {
        U256([v, 0, 0, 0])
    }
}

impl Default for U256 {
    fn default() -> (r: U256)
        ensures
            r@ == 0,
    {
        U256::zero()
    }
}

impl U256 {
    /// The integer 0.
    pub fn zero() -> (r: U256)
        ensures
            r@ == 0,
    {
        U256([0, 0, 0, 0])
    }

    /// Whether the integer is 0.
    pub fn is_zero(&self) -> (r: bool)
        ensures
            r == (self@ == 0),
    {
        self.0[0] == 0 && self.0[1] == 0 && self.0[2] == 0 && self.0[3] == 0
    }

    /// The larger of two integers.
    pub fn max(self, other: U256) -> (r: U256)
        ensures
            r == (if self@ <= other@ {
                other
            } else {
                self
            }),
    {
        if self.0[3] != other.0[3] {
            if self.0[3] < other.0[3] {
                other
            } else {
                self
            }
        } else if self.0[2] != other.0[2] {
            if self.0[2] < other.0[2] {
                other
            } else {
                self
            }
        } else if self.0[1] != other.0[1] {
            if self.0[1] < other.0[1] {
                other
            } else {
                self
            }
        } else if self.0[0] <= other.0[0] {
            other
        } else {
            self
        }
    }
}

/// An integer below `u256_bound` has one representation: equal values are equal limbs.
pub proof fn lemma_u256_injective(a: U256, b: U256)
    ensures
        a@ == b@ <==> a == b,
        a@ < u256_bound(),
{
    if a@ == b@ {
        assert(a.0 =~= b.0);
    }
    assert(u256_bound()
        == 0x1_0000_0000_0000_0000_0000_0000_0000_0000_0000_0000_0000_0000_0000_0000_0000_0000)
        by (nonlinear_arith);
}

/// Whether two byte strings are equal.
pub(crate) fn bytes_eq(a: &[u8], b: &[u8]) -> (r: bool)
    ensures
        r == (a@ == b@),
{
    if a.len() != b.len() {
        return false;
    }
    let mut i: usize = 0;
    while i < a.len()
        invariant
            i <= a.len(),
            a.len() == b.len(),
            forall|j: int| 0 <= j < i ==> a@[j] == b@[j],
        decreases a.len() - i,
    {
        if a[i] != b[i] {
            return false;
        }
        i = i + 1;
    }
    assert(a@ =~= b@);
    true
}

/// A 32-byte hash.
#[derive(Clone, Copy, Debug)]
pub struct H256(pub [u8; 32]);

impl View for H256 {
    type V = Seq<u8>;

    open spec fn view(&self) -> Seq<u8> {
        self.0@
    }
}

impl PartialEq for H256 {
    fn eq(&self, other: &H256) -> (r: bool) {
        let same = bytes_eq(&self.0, &other.0);
        proof {
            lemma_hash_injective(*self, *other);
        }
        same
    }
}

impl Eq for H256 {

}

impl vstd::std_specs::cmp::PartialEqSpecImpl for H256 {
    open spec fn obeys_eq_spec() -> bool {
        true
    }

    open spec fn eq_spec(&self, other: &H256) -> bool {
        *self == *other
    }
}

impl Default for H256 {
    fn default() -> (r: H256)
        ensures
            r@ == Seq::new(32, |i: int| 0u8),
    {
        H256::zero()
    }
}

impl H256 {
    /// The hash whose bytes all are 0.
    pub fn zero() -> (r: H256)
        ensures
            r@ == Seq::new(32, |i: int| 0u8),
    {
        H256::repeat_byte(0)
    }

    /// The hash whose bytes all are `byte`.
    pub fn repeat_byte(byte: u8) -> (r: H256)
        ensures
            r@ == Seq::new(32, |i: int| byte),
    {
        H256([byte; 32])
    }
}

/// A hash is determined by its bytes.
pub proof fn lemma_hash_injective(a: H256, b: H256)
    ensures
        a@ == b@ <==> a == b,
        a@.len() == 32,
{
    if a@ == b@ {
        assert forall|i: int| 0 <= i < 32 implies a.0[i] == b.0[i] by {
            assert(a.0@[i] == b.0@[i]);
        }
        assert(a.0 =~= b.0);
    }
}

/// A 20-byte account address.
#[derive(Clone, Copy, Debug)]
pub struct Address(pub [u8; 20]);

impl View for Address {
    type V = Seq<u8>;

    open spec fn view(&self) -> Seq<u8> {
        self.0@
    }
}

impl PartialEq for Address {
    fn eq(&self, other: &Address) -> (r: bool) {
        let same = bytes_eq(&self.0, &other.0);
        proof {
            lemma_address_injective(*self, *other);
        }
        same
    }
}

impl Eq for Address {

}

impl vstd::std_specs::cmp::PartialEqSpecImpl for Address {
    open spec fn obeys_eq_spec() -> bool {
        true
    }

    open spec fn eq_spec(&self, other: &Address) -> bool {
        *self == *other
    }
}

impl Address {
    /// The address whose bytes all are 0.
    pub fn zero() -> (r: Address)
        ensures
            r@ == Seq::new(20, |i: int| 0u8),
    {
        Address([0; 20])
    }
}

/// An address is determined by its bytes.
pub proof fn lemma_address_injective(a: Address, b: Address)
    ensures
        a@ == b@ <==> a == b,
        a@.len() == 20,
{
    if a@ == b@ {
        assert forall|i: int| 0 <= i < 20 implies a.0[i] == b.0[i] by {
            assert(a.0@[i] == b.0@[i]);
        }
        assert(a.0 =~= b.0);
    }
}

/// A byte string.
#[derive(Debug)]
pub struct Bytes(pub Vec<u8>);

impl View for Bytes {
    type V = Seq<u8>;

    open spec fn view(&self) -> Seq<u8> {
        self.0@
    }
}

impl Clone for Bytes {
    fn clone(&self) -> (r: Bytes)
        ensures
            r@ == self@,
    {
        let v = self.0.clone();
        assert(v@ =~= self.0@);
        Bytes(v)
    }
}

impl PartialEq for Bytes {
    fn eq(&self, other: &Bytes) -> (r: bool) {
        bytes_eq(self.0.as_slice(), other.0.as_slice())
    }
}

impl Eq for Bytes {

}

impl vstd::std_specs::cmp::PartialEqSpecImpl for Bytes {
    open spec fn obeys_eq_spec() -> bool {
        true
    }

    open spec fn eq_spec(&self, other: &Bytes) -> bool {
        self@ == other@
    }
}

impl From<Vec<u8>> for Bytes {
    fn from(v: Vec<u8>) -> (r: Bytes) {
        Bytes(v)
    }
}

impl vstd::std_specs::convert::FromSpecImpl<Vec<u8>> for Bytes {
    open spec fn obeys_from_spec() -> bool {
        true
    }

    open spec fn from_spec(v: Vec<u8>) -> Bytes {
        Bytes(v)
    }
}

/// The view of an optional value: absent, or the view of what is there.
pub open spec fn opt_view<T: View>(o: Option<T>) -> Option<T::V> {
    match o {
        Some(v) => Some(v@),
        None => None,
    }
}

/// Optional addresses with equal views are equal.
pub proof fn lemma_opt_address(a: Option<Address>, b: Option<Address>)
    ensures
        opt_view(a) == opt_view(b) <==> a == b,
{
    if a is Some && b is Some {
        lemma_address_injective(a->0, b->0);
    }
}

/// Optional integers with equal views are equal.
pub proof fn lemma_opt_u256(a: Option<U256>, b: Option<U256>)
    ensures
        opt_view(a) == opt_view(b) <==> a == b,
{
    if a is Some && b is Some {
        lemma_u256_injective(a->0, b->0);
    }
}

/// Optional hashes with equal views are equal.
pub proof fn lemma_opt_hash(a: Option<H256>, b: Option<H256>)
    ensures
        opt_view(a) == opt_view(b) <==> a == b,
{
    if a is Some && b is Some {
        lemma_hash_injective(a->0, b->0);
    }
}

} // verus!
