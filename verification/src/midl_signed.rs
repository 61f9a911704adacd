//! Reading signed Midl transactions, and what reading and writing have to do with each other.

use crate::codec::{gives, result_view};
use crate::decoding::{read_u256, read_u64, u256_at, u64_at};
use crate::midl::{
    midl_fields, midl_signed_fields, midl_signed_rlp, midl_typed_rlp, MidlTransactionRequest,
    MidlTransactionRequestView, NUM_MIDL_FIELDS,
};
use crate::midl_decoding::{lemma_readable, midl_in, signature_uints, uint_fields};
use crate::primitives::{lemma_u256_injective, u256_bound, Address};
use crate::rlp_format::{concat, is_rlp_list_of, length_modulus, rlp_uint};
use crate::signature::{
    keccak256_digest, normalized_v, recovered_address, Signature, SignatureError, SignatureView,
};
use crate::transaction::TransactionRequestView;
use rlp::DecoderError;
use vstd::prelude::*;

verus! {

/// An error involving a Midl transaction request.
#[derive(Debug)]
pub enum MidlRequestError {
    /// When decoding a transaction request from RLP
    DecodingError(DecoderError),
    /// When recovering the address from a signature
    RecoveryError(SignatureError),
}

impl From<DecoderError> for MidlRequestError {
    fn from(e: DecoderError) -> (r: MidlRequestError) {
        MidlRequestError::DecodingError(e)
    }
}

impl vstd::std_specs::convert::FromSpecImpl<DecoderError> for MidlRequestError {
    open spec fn obeys_from_spec() -> bool {
        true
    }

    open spec fn from_spec(e: DecoderError) -> MidlRequestError {
        MidlRequestError::DecodingError(e)
    }
}

impl From<SignatureError> for MidlRequestError {
    fn from(e: SignatureError) -> (r: MidlRequestError) {
        MidlRequestError::RecoveryError(e)
    }
}

impl vstd::std_specs::convert::FromSpecImpl<SignatureError> for MidlRequestError {
    open spec fn obeys_from_spec() -> bool {
        true
    }

    open spec fn from_spec(e: SignatureError) -> MidlRequestError {
        MidlRequestError::RecoveryError(e)
    }
}

/// A transaction and its signature, once the signer was looked for: the signer is the
/// sender.
pub open spec fn signed_by(
    m: MidlTransactionRequestView,
    sig: SignatureView,
    signer: Result<Seq<u8>, SignatureError>,
) -> Result<(MidlTransactionRequestView, SignatureView), MidlRequestError> {
    match signer {
        Ok(address) => Ok(
            (
                MidlTransactionRequestView {
                    tx: TransactionRequestView { from: Some(address), ..m.tx },
                    ..m
                },
                sig,
            ),
        ),
        Err(e) => Err(MidlRequestError::RecoveryError(e)),
    }
}

/// The account that signed a transaction.
pub open spec fn signer_of(m: MidlTransactionRequestView, sig: SignatureView) -> Result<
    Seq<u8>,
    SignatureError,
> {
    recovered_address(keccak256_digest(midl_typed_rlp(m)), sig)
}

/// The signature at the positions 11 to 13 of a list, or the error of the first part that
/// cannot be read.
pub open spec fn signature_in(raw: Seq<u8>) -> Result<SignatureView, DecoderError> {
    let v = u64_at(raw, 11);
    let r = u256_at(raw, 12);
    let s = u256_at(raw, 13);
    if v is Err {
        Err(v->Err_0)
    } else if r is Err {
        Err(r->Err_0)
    } else if s is Err {
        Err(s->Err_0)
    } else {
        Ok(SignatureView { r: r->Ok_0, s: s->Ok_0, v: v->Ok_0 })
    }
}

/// The signed Midl transaction in a list, with its signer as the sender.
pub open spec fn signed_midl_in(raw: Seq<u8>) -> Result<
    (MidlTransactionRequestView, SignatureView),
    MidlRequestError,
> {
    match midl_in(raw) {
        Err(e) => Err(MidlRequestError::DecodingError(e)),
        Ok(m) => match signature_in(raw) {
            Err(e) => Err(MidlRequestError::DecodingError(e)),
            Ok(sig) => signed_by(m, sig, signer_of(m, sig)),
        },
    }
}

/// The view of a decoded transaction with its signature.
pub open spec fn signed_view(
    r: Result<(MidlTransactionRequest, Signature), MidlRequestError>,
) -> Result<(MidlTransactionRequestView, SignatureView), MidlRequestError> {
    match r {
        Ok((m, sig)) => Ok((m@, sig@)),
        Err(e) => Err(e),
    }
}

/// What a list that holds a signed transaction is made of.
pub open spec fn signed_facts(raw: Seq<u8>, x: MidlTransactionRequest, sig: Signature) -> bool {
    &&& is_rlp_list_of(raw, midl_signed_fields(x@, sig@))
    &&& x@.is_readable()
    &&& midl_signed_fields(x@, sig@).len() == 14
    &&& midl_signed_fields(x@, sig@).take(11) == midl_fields(x@)
    &&& holds_signature(midl_signed_fields(x@, sig@), plain_signature(x@, sig@))
}

/// Whether the items behind the first eleven are those of a signature.
pub open spec fn holds_signature(items: Seq<Seq<u8>>, sig: SignatureView) -> bool {
    &&& items.len() == 14
    &&& items[11] == rlp_uint(sig.v as nat)
    &&& items[12] == rlp_uint(sig.r)
    &&& items[13] == rlp_uint(sig.s)
    &&& sig.r < u256_bound()
    &&& sig.s < u256_bound()
}

/// A signature with its recovery value in the plain form.
pub open spec fn plain_signature(
    m: MidlTransactionRequestView,
    sig: SignatureView,
) -> SignatureView {
    SignatureView { v: normalized_v(sig.v, m.normalized_chain_id()), ..sig }
}

/// The parts of a signed transaction that goes to an account and whose fields can be measured.
proof fn lemma_signed_facts(raw: Seq<u8>, x: MidlTransactionRequest, sig: Signature)
    requires
        raw == midl_signed_rlp(x@, sig@),
        x@.is_resolved(),
        concat(midl_signed_fields(x@, sig@)).len() < length_modulus(),
    ensures
        signed_facts(raw, x, sig),
{
    let tail = signature_uints(x@, sig@);
    assert(midl_signed_fields(x@, sig@) =~= midl_fields(x@) + uint_fields(tail));
    lemma_readable(x, tail);
    lemma_u256_injective(sig.r, sig.r);
    lemma_u256_injective(sig.s, sig.s);
}

impl Signature {
    /// Reads the signature behind the fields of a transaction, at the positions 11 to 13.
    pub(crate) fn decode_rlp(rlp: &[u8]) -> (r: Result<Signature, DecoderError>)
        ensures
            result_view(r) == signature_in(rlp@),
            forall|items: Seq<Seq<u8>>, sig: SignatureView|
                #![trigger is_rlp_list_of(rlp@, items), holds_signature(items, sig)]
                is_rlp_list_of(rlp@, items) && holds_signature(items, sig) ==> gives(r, sig),
            forall|items: Seq<Seq<u8>>| #[trigger]
                is_rlp_list_of(rlp@, items) && items.len() < NUM_MIDL_FIELDS + 3 ==> r is Err,
    {
        let v = match read_u64(rlp, 11) {
            Ok(v) => v,
            Err(e) => {
                return Err(e);
            },
        };
        let r = match read_u256(rlp, 12) {
            Ok(r) => r,
            Err(e) => {
                return Err(e);
            },
        };
        let s = match read_u256(rlp, 13) {
            Ok(s) => s,
            Err(e) => {
                return Err(e);
            },
        };
        Ok(Signature { r, s, v })
    }
}

impl MidlTransactionRequest {
    /// The transaction and its signature, once the signer was looked for: the signer becomes
    /// the sender.
    pub fn with_signer(self, sig: Signature, signer: Result<Address, SignatureError>) -> (r: Result<
        (MidlTransactionRequest, Signature),
        MidlRequestError,
    >)
        ensures
            signed_view(r) == signed_by(self@, sig@, result_view(signer)),
    {
        match signer {
            Ok(address) => {
                let mut txn = self;
                txn.tx.from = Some(address);
                Ok((txn, sig))
            },
            Err(e) => Err(MidlRequestError::from(e)),
        }
    }

    /// Reads a signed transaction and tells its sender from the signature. What
    /// [`MidlTransactionRequest::rlp_signed`] wrote is read back in its canonical form, with
    /// the recovery value in the plain form. A list with fewer fields is refused.
    pub fn decode_signed_rlp(rlp: &[u8]) -> (r: Result<
        (MidlTransactionRequest, Signature),
        MidlRequestError,
    >)
        ensures
            signed_view(r) == signed_midl_in(rlp@),
            forall|x: MidlTransactionRequest, sig: Signature|
                rlp@ == #[trigger] midl_signed_rlp(x@, sig@) && x@.is_resolved() && concat(
                    midl_signed_fields(x@, sig@),
                ).len() < length_modulus() ==> {
                    let plain = plain_signature(x@, sig@);
                    signed_view(r) == signed_by(
                        x@.canonical(),
                        plain,
                        signer_of(x@.canonical(), plain),
                    )
                },
            forall|items: Seq<Seq<u8>>| #[trigger]
                is_rlp_list_of(rlp@, items) && items.len() < NUM_MIDL_FIELDS + 3 ==> (r matches Err(
                    e,
                ) && e is DecodingError),
    {
        proof {
            assert forall|x: MidlTransactionRequest, sig: Signature|
                rlp@ == #[trigger] midl_signed_rlp(x@, sig@) && x@.is_resolved() && concat(
                    midl_signed_fields(x@, sig@),
                ).len() < length_modulus() implies signed_facts(rlp@, x, sig) by {
                lemma_signed_facts(rlp@, x, sig);
            }
        }
        let txn = match MidlTransactionRequest::decode_base_rlp(rlp) {
            Ok(txn) => txn,
            Err(e) => {
                return Err(MidlRequestError::from(e));
            },
        };
        let sig = match Signature::decode_rlp(rlp) {
            Ok(sig) => sig,
            Err(e) => {
                return Err(MidlRequestError::from(e));
            },
        };
        let signer = sig.recover(&txn.sighash());
        txn.with_signer(sig, signer)
    }
}

} // verus!
