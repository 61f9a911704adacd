//! The RLP codec: what the library asks of the `rlp` crate.

use crate::primitives::{u256_bound, Address, H256, U256};
use crate::rlp_format::{has_payload, is_rlp_list_of, rlp_list, rlp_string, rlp_uint};
use rlp::{DecoderError, Rlp, RlpStream};
use vstd::prelude::*;

verus! {

/// `rlp::DecoderError`: why a decoding failed. It is carried through unread.
#[verifier::external_type_specification]
#[verifier::external_body]
pub struct ExDecoderError(DecoderError);

/// `rlp::RlpStream`: an encoding under construction.
#[verifier::external_type_specification]
#[verifier::external_body]
pub struct ExRlpStream(RlpStream);

/// What a stream holds, from the outside in: first the finished bytes, then one entry for
/// each list that is still open. An open list counts the items that it misses and holds
/// the bytes of those that it has. The count of the first entry is 0.
pub uninterp spec fn stream_frames(stream: RlpStream) -> Seq<(nat, Seq<u8>)>;

/// The frames after one more item. The item that completes a list closes it, and the whole
/// list is then an item of the list around it.
pub open spec fn append_item(frames: Seq<(nat, Seq<u8>)>, item: Seq<u8>) -> Seq<(nat, Seq<u8>)>
    decreases frames.len(),
{
    if frames.len() <= 1 {
        seq![(0nat, frames[0].1 + item)]
    } else if frames.last().0 > 1 {
        frames.drop_last().push(((frames.last().0 - 1) as nat, frames.last().1 + item))
    } else {
        append_item(frames.drop_last(), rlp_list(frames.last().1 + item))
    }
}

/// The frames after a list of `len` items was begun; an empty list is complete at once.
pub open spec fn begin_frame(frames: Seq<(nat, Seq<u8>)>, len: nat) -> Seq<(nat, Seq<u8>)> {
    if len == 0 {
        append_item(frames, rlp_list(Seq::empty()))
    } else {
        frames.push((len, Seq::empty()))
    }
}

/// `RlpStream::new`: nothing is finished and no list is open.
#[verifier::external_body]
pub(crate) fn new_stream() -> (r: RlpStream)
    ensures
        stream_frames(r) == seq![(0nat, Seq::<u8>::empty())],
{
    RlpStream::new()
}

/// `RlpStream::begin_list`: the next `len` items are the list's.
#[verifier::external_body]
pub(crate) fn begin_list(stream: &mut RlpStream, len: usize)
    ensures
        stream_frames(*final(stream)) == begin_frame(stream_frames(*old(stream)), len as nat),
{
    stream.begin_list(len);
}

/// `RlpStream::append` of a byte slice: the string is the next item.
#[verifier::external_body]
pub(crate) fn append_bytes(stream: &mut RlpStream, bytes: &[u8])
    ensures
        stream_frames(*final(stream)) == append_item(
            stream_frames(*old(stream)),
            rlp_string(bytes@),
        ),
{
    stream.append(&bytes);
}

/// `RlpStream::append` of a `u64`: the integer is the next item.
#[verifier::external_body]
pub(crate) fn append_u64(stream: &mut RlpStream, v: u64)
    ensures
        stream_frames(*final(stream)) == append_item(
            stream_frames(*old(stream)),
            rlp_uint(v as nat),
        ),
{
    stream.append(&v);
}

/// `RlpStream::append` of an `ethereum_types::U256`: the integer is the next item.
#[verifier::external_body]
pub(crate) fn append_u256(stream: &mut RlpStream, v: &U256)
    ensures
        stream_frames(*final(stream)) == append_item(stream_frames(*old(stream)), rlp_uint(v@)),
{
    stream.append(&ethereum_types::U256(v.0));
}

/// `RlpStream::append_raw` of no bytes, counted as one item: the item takes its place in
/// the list and leaves nothing in the encoding.
#[verifier::external_body]
pub(crate) fn append_nothing(stream: &mut RlpStream)
    ensures
        stream_frames(*final(stream)) == append_item(stream_frames(*old(stream)), Seq::empty()),
{
    stream.append_raw(&[], 1);
}

/// `RlpStream::out`: the finished bytes. It panics while a list is open.
#[verifier::external_body]
pub(crate) fn finish_stream(stream: RlpStream) -> (r: Vec<u8>)
    requires
        stream_frames(stream).len() == 1,
    ensures
        r@ == stream_frames(stream)[0].1,
{
    stream.out().to_vec()
}

/// The item of the list `raw` at a position, read by the `rlp` crate on a machine whose
/// addresses have `word_bits` bits (the width decides which error an overlong length gives).
pub uninterp spec fn rlp_item_at(raw: Seq<u8>, index: nat, word_bits: u32) -> Result<
    Seq<u8>,
    DecoderError,
>;

/// The payload of the item that `raw` begins with, read by the `rlp` crate.
pub uninterp spec fn rlp_payload(raw: Seq<u8>, word_bits: u32) -> Result<Seq<u8>, DecoderError>;

/// The `u64` that an item encodes, read by the `rlp` crate.
pub uninterp spec fn rlp_u64(item: Seq<u8>, word_bits: u32) -> Result<u64, DecoderError>;

/// The 256-bit integer that an item encodes, read by the `rlp` crate.
pub uninterp spec fn rlp_u256(item: Seq<u8>, word_bits: u32) -> Result<nat, DecoderError>;

/// The 32 bytes that an item encodes, read by the `rlp` crate.
pub uninterp spec fn rlp_h256(item: Seq<u8>, word_bits: u32) -> Result<Seq<u8>, DecoderError>;

/// The 20 bytes that an item encodes, read by the `rlp` crate.
pub uninterp spec fn rlp_address(item: Seq<u8>, word_bits: u32) -> Result<Seq<u8>, DecoderError>;

/// The view of a result: the view of the value, or the error.
pub open spec fn result_view<T: View, E>(r: Result<T, E>) -> Result<T::V, E> {
    match r {
        Ok(v) => Ok(v@),
        Err(e) => Err(e),
    }
}

/// Whether a result is a value with the view `v`.
pub open spec fn gives<T: View, E>(r: Result<T, E>, v: T::V) -> bool {
    r matches Ok(x) && x@ == v
}

/// `Rlp::at`, on a reader that has found the first item: the raw bytes of the item at
/// `index`. From the first item on, the reader walks from item to item. An item takes at
/// least one byte. Of the encoding of a list it gives back the list's items, and an error
/// behind the last.
#[verifier::external_body]
pub(crate) fn item_at(raw: &[u8], index: usize) -> (r: Result<&[u8], DecoderError>)
    ensures
        result_view(r) == rlp_item_at(raw@, index as nat, usize::BITS),
        r is Ok ==> index < raw@.len(),
        forall|items: Seq<Seq<u8>>| #[trigger]
            is_rlp_list_of(raw@, items) ==> if index < items.len() {
                gives(r, items[index as int])
            } else {
                r is Err
            },
{
    let list = Rlp::new(raw);
    match list.at(0) {
        Ok(_) => match list.at(index) {
            Ok(item) => Ok(item.as_raw()),
            Err(e) => Err(e),
        },
        Err(e) => Err(e),
    }
}

/// `Rlp::data`: the payload of an item, be it a string or a list.
#[verifier::external_body]
pub(crate) fn payload(item: &[u8]) -> (r: Result<&[u8], DecoderError>)
    ensures
        result_view(r) == rlp_payload(item@, usize::BITS),
        forall|p: Seq<u8>| #[trigger]
            has_payload(item@, p) ==> gives(r, p),
{
    Rlp::new(item).data()
}

/// `Rlp::as_val` for `u64`. It gives back the integer that an encoding was made of.
#[verifier::external_body]
pub(crate) fn decode_u64(item: &[u8]) -> (r: Result<u64, DecoderError>)
    ensures
        r == rlp_u64(item@, usize::BITS),
        forall|n: u64|
            item@ == #[trigger] rlp_uint(n as nat) ==> gives(r, n),
{
    Rlp::new(item).as_val()
}

/// `Rlp::as_val` for `ethereum_types::U256`. It gives back the integer that an encoding was
/// made of.
#[verifier::external_body]
pub(crate) fn decode_u256(item: &[u8]) -> (r: Result<U256, DecoderError>)
    ensures
        result_view(r) == rlp_u256(item@, usize::BITS),
        forall|n: nat|
            n < u256_bound() && item@ == #[trigger] rlp_uint(n) ==> gives(r, n),
{
    match Rlp::new(item).as_val::<ethereum_types::U256>() {
        Ok(v) => Ok(U256(v.0)),
        Err(e) => Err(e),
    }
}

/// `Rlp::as_val` for `ethereum_types::H256`. It gives back the 32 bytes that an encoding was
/// made of.
#[verifier::external_body]
pub(crate) fn decode_h256(item: &[u8]) -> (r: Result<H256, DecoderError>)
    ensures
        result_view(r) == rlp_h256(item@, usize::BITS),
        forall|h: Seq<u8>|
            h.len() == 32 && item@ == #[trigger] rlp_string(h) ==> gives(r, h),
{
    match Rlp::new(item).as_val::<ethereum_types::H256>() {
        Ok(v) => Ok(H256(v.0)),
        Err(e) => Err(e),
    }
}

/// `Rlp::as_val` for `ethereum_types::H160`. It gives back the 20 bytes that an encoding was
/// made of.
#[verifier::external_body]
pub(crate) fn decode_address(item: &[u8]) -> (r: Result<Address, DecoderError>)
    ensures
        result_view(r) == rlp_address(item@, usize::BITS),
        forall|a: Seq<u8>|
            a.len() == 20 && item@ == #[trigger] rlp_string(a) ==> gives(r, a),
{
    match Rlp::new(item).as_val::<ethereum_types::H160>() {
        Ok(v) => Ok(Address(v.0)),
        Err(e) => Err(e),
    }
}

} // verus!
