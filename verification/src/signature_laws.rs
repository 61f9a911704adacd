//! What holds of recovery values and of the accounts that signatures lead to.

use crate::signature::{
    can_normalize_v, keccak256_digest, normalized_v, recovered_address, recovered_key, recovery_id,
    SignatureError, SignatureView,
};
use vstd::prelude::*;

verus! {

/// Whether a recovery value stands for a recovery id: plainly (0, 1), in the older numbering
/// (27, 28), or with a chain folded in, which adds 35 and twice the chain id.
pub open spec fn stands_for_id(v: u64, id: u8) -> bool {
    &&& id <= 1
    &&& v == id || v == 27 + id || (v >= 35 && (v - 35) % 2 == id)
}

/// To fold a chain in and to take it out again is to do nothing: of the value
/// `2 chain + 35 + k` the plain form is `k`. A value that is plain already stays.
pub proof fn law_folding_is_undone(chain_id: u64, k: u64)
    requires
        2 * chain_id + 35 + k <= u64::MAX,
    ensures
        can_normalize_v((2 * chain_id + 35 + k) as u64, chain_id),
        normalized_v((2 * chain_id + 35 + k) as u64, chain_id) == k,
        k <= 1 ==> can_normalize_v(k, chain_id) && normalized_v(k, chain_id) == k,
{
}

/// The plain form of a value is the value itself, or gives the value back when the chain is
/// folded in again.
pub proof fn law_plain_form_is_faithful(v: u64, chain_id: u64)
    requires
        can_normalize_v(v, chain_id),
    ensures
        v <= 1 ==> normalized_v(v, chain_id) == v,
        v > 1 ==> normalized_v(v, chain_id) + 2 * chain_id + 35 == v,
{
}

/// A recovery value has the recovery id that it stands for, and none where it stands for none:
/// from 2 to 26 and from 29 to 34.
pub proof fn law_recovery_ids(v: u64, id: u8)
    ensures
        stands_for_id(v, id) ==> recovery_id(v) == Some(id),
        recovery_id(v) == Some(id) ==> stands_for_id(v, id),
        recovery_id(v) is None <==> 2 <= v <= 26 || 29 <= v <= 34,
{
}

/// A plain value with a chain folded in stands for the same recovery id.
pub proof fn law_folded_value_stands_for_the_same_id(chain_id: u64, id: u8)
    requires
        id <= 1,
        2 * chain_id + 35 + id <= u64::MAX,
    ensures
        stands_for_id((2 * chain_id + 35 + id) as u64, id),
        recovery_id((2 * chain_id + 35 + id) as u64) == recovery_id(id as u64),
        recovery_id(id as u64) == Some(id),
{
}

/// In each form in which a recovery value can be given, a signature names the same signer.
pub proof fn law_form_of_v_does_not_matter(
    prehash: Seq<u8>,
    r: nat,
    s: nat,
    v: u64,
    other_v: u64,
    id: u8,
)
    requires
        stands_for_id(v, id),
        stands_for_id(other_v, id),
    ensures
        recovered_address(prehash, SignatureView { r, s, v }) == recovered_address(
            prehash,
            SignatureView { r, s, v: other_v },
        ),
{
    law_recovery_ids(v, id);
    law_recovery_ids(other_v, id);
}

/// Where both halves are scalars and `s` is in the lower half, the account is that of the key
/// which the curve gives for just these halves and this recovery id: the last 20 bytes of the
/// hash of its 64 bytes of coordinates. There is an error only where the curve gives no key.
pub proof fn law_low_signature_is_recovered(
    prehash: Seq<u8>,
    r: nat,
    s: nat,
    v: u64,
    id: u8,
)
    requires
        0 < r < 0xFFFFFFFFFFFFFFFFFFFFFFFFFFFFFFFEBAAEDCE6AF48A03BBFD25E8CD0364141nat,
        0 < s <= 0x7FFFFFFFFFFFFFFFFFFFFFFFFFFFFFFF5D576E7357A4501DDFE92F46681B20A0nat,
        stands_for_id(v, id),
    ensures
        recovered_key(prehash, r, s, id) matches Some(key) ==> recovered_address(
            prehash,
            SignatureView { r, s, v },
        ) == Ok::<Seq<u8>, SignatureError>(
            keccak256_digest(key.subrange(1, 65)).subrange(12, 32),
        ),
        recovered_key(prehash, r, s, id) is None ==> recovered_address(
            prehash,
            SignatureView { r, s, v },
        ) == Err::<Seq<u8>, SignatureError>(SignatureError::K256Error),
{
    law_recovery_ids(v, id);
}

/// A signature and the one with `s` negated and the recovery id flipped lead to the same
/// account.
pub proof fn law_negated_signature_has_the_same_signer(
    prehash: Seq<u8>,
    r: nat,
    s: nat,
    v: u64,
    flipped_v: u64,
    id: u8,
)
    requires
        0 < s < 0xFFFFFFFFFFFFFFFFFFFFFFFFFFFFFFFEBAAEDCE6AF48A03BBFD25E8CD0364141nat,
        id <= 1,
        stands_for_id(v, id),
        stands_for_id(flipped_v, (1 - id) as u8),
    ensures
        recovered_address(prehash, SignatureView { r, s, v }) == recovered_address(
            prehash,
            SignatureView {
                r,
                s: (0xFFFFFFFFFFFFFFFFFFFFFFFFFFFFFFFEBAAEDCE6AF48A03BBFD25E8CD0364141nat - s)
                    as nat,
                v: flipped_v,
            },
        ),
{
    law_recovery_ids(v, id);
    law_recovery_ids(flipped_v, (1 - id) as u8);
}

/// Halves that are no scalars, and values that stand for no recovery id, lead to no account.
pub proof fn law_bad_signature_has_no_signer(prehash: Seq<u8>, sig: SignatureView)
    requires
        ({
            ||| sig.r == 0
            ||| sig.s == 0
            ||| sig.r >= 0xFFFFFFFFFFFFFFFFFFFFFFFFFFFFFFFEBAAEDCE6AF48A03BBFD25E8CD0364141nat
            ||| sig.s >= 0xFFFFFFFFFFFFFFFFFFFFFFFFFFFFFFFEBAAEDCE6AF48A03BBFD25E8CD0364141nat
            ||| 2 <= sig.v <= 26
            ||| 29 <= sig.v <= 34
        }),
    ensures
        recovered_address(prehash, sig) == Err::<Seq<u8>, SignatureError>(
            SignatureError::K256Error,
        ),
{
    law_recovery_ids(sig.v, 0);
}

} // verus!
