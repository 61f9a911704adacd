//! Signatures over transactions, and the account that made one.

use crate::codec::result_view;
use crate::primitives::{lemma_u256_injective, opt_view, Address, H256, U256};
use tiny_keccak::Hasher;
use vstd::prelude::*;

verus! {

/// `k256::ecdsa::Error`: the curve arithmetic rejected its input.
#[verifier::external_type_specification]
#[verifier::external_body]
pub struct ExEcdsaError(k256::ecdsa::Error);

/// The Keccak-256 digest of a byte string.
pub uninterp spec fn keccak256_digest(bytes: Seq<u8>) -> Seq<u8>;

/// The 256-bit Keccak hash of `tiny_keccak` (`Keccak::v256`, `update`, `finalize`): one
/// digest of 32 bytes for each byte string.
#[verifier::external_body]
pub(crate) fn keccak256(bytes: &[u8]) -> (r: H256)
    ensures
        r@ == keccak256_digest(bytes@),
{
    let mut digest = [0u8; 32];
    let mut hasher = tiny_keccak::Keccak::v256();
    hasher.update(bytes);
    hasher.finalize(&mut digest);
    H256(digest)
}

/// The number of points of the curve secp256k1.
pub open spec fn curve_order() -> nat {
    0xFFFFFFFFFFFFFFFFFFFFFFFFFFFFFFFEBAAEDCE6AF48A03BBFD25E8CD0364141nat
}

/// Whether an integer can be half of a signature.
pub open spec fn is_scalar(n: nat) -> bool {
    0 < n < curve_order()
}

/// What to replace `s` with so that it lies in the lower half of the range: its negation,
/// or nothing where it is there already. Both halves must be scalars.
pub open spec fn low_s(r: nat, s: nat) -> Option<Option<nat>> {
    if !is_scalar(r) || !is_scalar(s) {
        None
    } else if s > curve_order() / 2 {
        Some(Some((curve_order() - s) as nat))
    } else {
        Some(None)
    }
}

/// `Signature::from_scalars` and then `normalize_s` of `k256::ecdsa`: rejects what is no
/// scalar, and gives the negation of an `s` in the upper half of the range.
#[verifier::external_body]
fn normalize_s(r: &U256, s: &U256) -> (low: Result<Option<U256>, k256::ecdsa::Error>)
    ensures
        match low {
            Ok(o) => low_s(r@, s@) == Some(opt_view(o)),
            Err(_) => low_s(r@, s@) is None,
        },
{
    let (mut r_bytes, mut s_bytes) = ([0u8; 32], [0u8; 32]);
    ethereum_types::U256(r.0).to_big_endian(&mut r_bytes);
    ethereum_types::U256(s.0).to_big_endian(&mut s_bytes);
    let signature = k256::ecdsa::Signature::from_scalars(r_bytes, s_bytes)?;
    match signature.normalize_s() {
        Some(low) => {
            let bytes = low.split_bytes().1;
            Ok(Some(U256(ethereum_types::U256::from_big_endian(&bytes).0)))
        },
        None => Ok(None),
    }
}

/// The public key that a signature over a hash was made with, as an uncompressed curve
/// point, where there is one.
pub uninterp spec fn recovered_key(
    prehash: Seq<u8>,
    r: nat,
    s: nat,
    recovery_id: u8,
) -> Option<Seq<u8>>;

/// `VerifyingKey::recover_from_prehash` of `k256::ecdsa`: the key, as an uncompressed curve
/// point of 65 bytes. A recovery id above 3 is rejected too.
#[verifier::external_body]
fn recover_key(prehash: &H256, r: &U256, s: &U256, recovery_id: u8) -> (key: Result<
    Vec<u8>,
    k256::ecdsa::Error,
>)
    ensures
        match key {
            Ok(k) => recovered_key(prehash@, r@, s@, recovery_id) == Some(k@),
            Err(_) => recovered_key(prehash@, r@, s@, recovery_id) is None,
        },
        key matches Ok(k) ==> k@.len() == 65,
{
    let (mut r_bytes, mut s_bytes) = ([0u8; 32], [0u8; 32]);
    ethereum_types::U256(r.0).to_big_endian(&mut r_bytes);
    ethereum_types::U256(s.0).to_big_endian(&mut s_bytes);
    let signature = k256::ecdsa::Signature::from_scalars(r_bytes, s_bytes)?;
    let id = k256::ecdsa::RecoveryId::try_from(recovery_id)?;
    let key = k256::ecdsa::VerifyingKey::recover_from_prehash(&prehash.0, &signature, id)?;
    Ok(key.to_encoded_point(false).as_bytes().to_vec())
}

/// Why no account can be told from a signature.
#[derive(Clone, Copy, Debug, PartialEq, Eq, Structural)]
pub enum SignatureError {
    /// The curve arithmetic rejected the signature, or its recovery value.
    K256Error,
}

/// A signature: the two halves, and the value from which the recovery id follows.
#[derive(Clone, Copy, Debug)]
pub struct Signature {
    pub r: U256,
    pub s: U256,
    pub v: u64,
}

/// The model of a [`Signature`].
#[verifier::ext_equal]
pub struct SignatureView {
    pub r: nat,
    pub s: nat,
    pub v: u64,
}

impl View for Signature {
    type V = SignatureView;

    open spec fn view(&self) -> SignatureView {
        SignatureView { r: self.r@, s: self.s@, v: self.v }
    }
}

impl PartialEq for Signature {
    fn eq(&self, other: &Signature) -> (r: bool) {
        proof {
            lemma_u256_injective(self.r, other.r);
            lemma_u256_injective(self.s, other.s);
        }
        self.r == other.r && self.s == other.s && self.v == other.v
    }
}

impl Eq for Signature {

}

impl vstd::std_specs::cmp::PartialEqSpecImpl for Signature {
    open spec fn obeys_eq_spec() -> bool {
        true
    }

    open spec fn eq_spec(&self, other: &Signature) -> bool {
        self@ == other@
    }
}

/// The recovery id of a value: plain (0, 1), in the older numbering (27, 28), or with a
/// chain id folded in (35 and above).
pub open spec fn recovery_id(v: u64) -> Option<u8> {
    if v == 0 || v == 27 {
        Some(0)
    } else if v == 1 || v == 28 {
        Some(1)
    } else if v >= 35 {
        Some(((v - 1) % 2) as u8)
    } else {
        None
    }
}

/// The account of an uncompressed public key: the last 20 bytes of the hash of its
/// coordinates.
pub open spec fn key_address(key: Seq<u8>) -> Seq<u8> {
    keccak256_digest(key.subrange(1, 65)).subrange(12, 32)
}

/// The account that made a signature over a hash.
pub open spec fn recovered_address(prehash: Seq<u8>, sig: SignatureView) -> Result<
    Seq<u8>,
    SignatureError,
> {
    let (r, s, v) = (sig.r, sig.s, sig.v);
    if recovery_id(v) is None {
        Err(SignatureError::K256Error)
    } else {
        let id = recovery_id(v)->0;
        let key = match low_s(r, s) {
            None => None,
            Some(Some(low)) => recovered_key(prehash, r, low, (1 - id) as u8),
            Some(None) => recovered_key(prehash, r, s, id),
        };
        match key {
            Some(k) => Ok(key_address(k)),
            None => Err(SignatureError::K256Error),
        }
    }
}

/// The recovery id of a signature's value.
pub fn normalize_recovery_id(v: u64) -> (r: Option<u8>)
    ensures
        r == recovery_id(v),
        r matches Some(id) ==> id <= 1,
{
    if v == 0 || v == 27 {
        Some(0)
    } else if v == 1 || v == 28 {
        Some(1)
    } else if v >= 35 {
        Some(((v - 1) % 2) as u8)
    } else {
        None
    }
}

/// The account that a digest of a public key stands for: its last 20 bytes.
pub fn address_of_digest(digest: &H256) -> (r: Address)
    ensures
        r@ == digest@.subrange(12, 32),
{
    let mut bytes: [u8; 20] = [0; 20];
    let mut i: usize = 0;
    while i < 20
        invariant
            i <= 20,
            forall|j: int| 0 <= j < i ==> bytes@[j] == digest@[12 + j],
        decreases 20 - i,
    {
        bytes[i] = digest.0[12 + i];
        i = i + 1;
    }
    assert(bytes@ =~= digest@.subrange(12, 32));
    Address(bytes)
}

impl Signature {
    /// The account that made this signature over `prehash`.
    pub fn recover(&self, prehash: &H256) -> (r: Result<Address, SignatureError>)
        ensures
            result_view(r) == recovered_address(prehash@, self@),
    {
        let id = match normalize_recovery_id(self.v) {
            Some(id) => id,
            None => {
                return Err(SignatureError::K256Error);
            },
        };
        let key = match normalize_s(&self.r, &self.s) {
            Ok(Some(low)) => recover_key(prehash, &self.r, &low, 1 - id),
            Ok(None) => recover_key(prehash, &self.r, &self.s, id),
            Err(_) => {
                return Err(SignatureError::K256Error);
            },
        };
        match key {
            Ok(k) => {
                let coordinates = vstd::slice::slice_subrange(k.as_slice(), 1, 65);
                Ok(address_of_digest(&keccak256(coordinates)))
            },
            Err(_) => Err(SignatureError::K256Error),
        }
    }
}

/// Whether a value of a signature for a chain can be brought to the plain form.
pub open spec fn can_normalize_v(v: u64, chain_id: u64) -> bool {
    v <= 1 || v >= 2 * chain_id + 35
}

/// A value of a signature in the plain form: one with the chain id folded in has it taken
/// out again.
pub open spec fn normalized_v(v: u64, chain_id: u64) -> u64 {
    if v > 1 {
        (v - 2 * chain_id - 35) as u64
    } else {
        v
    }
}

/// A value of a signature in the plain form.
pub fn normalize_v(v: u64, chain_id: u64) -> (r: u64)
    requires
        can_normalize_v(v, chain_id),
    ensures
        r == normalized_v(v, chain_id),
{
    if v > 1 {
        v - chain_id * 2 - 35
    } else {
        v
    }
}

} // verus!
