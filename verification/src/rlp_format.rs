//! The recursive length prefix (RLP) format as mathematics: how byte strings, integers
//! and lists are written down.

use vstd::prelude::*;

verus! {

/// The shortest big-endian form of `n`; 0 has no bytes at all.
pub open spec fn big_endian(n: nat) -> Seq<u8>
    decreases n,
{
    if n == 0 {
        Seq::empty()
    } else {
        big_endian(n / 256).push((n % 256) as u8)
    }
}

/// The lengths that an RLP header can tell apart: it writes a length modulo this number.
pub open spec fn length_modulus() -> nat {
    0x1_0000_0000
}

/// The header in front of a payload of `len` bytes. Strings have the offset 0x80, lists
/// 0xc0. Up to 55 bytes the length is in the first byte; above, the first byte counts the
/// bytes of the length.
pub open spec fn rlp_header(offset: nat, len: nat) -> Seq<u8> {
    if len <= 55 {
        seq![(offset + len) as u8]
    } else {
        let size = big_endian(len % length_modulus());
        seq![(offset + 55 + size.len()) as u8] + size
    }
}

/// The encoding of a byte string. A single byte below 0x80 stands for itself.
pub open spec fn rlp_string(payload: Seq<u8>) -> Seq<u8> {
    if payload.len() == 1 && payload[0] < 0x80 {
        payload
    } else {
        rlp_header(0x80, payload.len()) + payload
    }
}

/// The encoding of an integer: that of its shortest big-endian form.
pub open spec fn rlp_uint(n: nat) -> Seq<u8> {
    rlp_string(big_endian(n))
}

/// The encoding of a list whose items, already encoded and put end to end, are `payload`.
pub open spec fn rlp_list(payload: Seq<u8>) -> Seq<u8> {
    rlp_header(0xc0, payload.len()) + payload
}

/// Byte strings put end to end.
pub open spec fn concat(items: Seq<Seq<u8>>) -> Seq<u8>
    decreases items.len(),
{
    if items.len() == 0 {
        Seq::empty()
    } else {
        concat(items.drop_last()) + items.last()
    }
}

/// Whether `item` is the encoding of a byte string or of a list, with a payload that its
/// header can measure.
pub open spec fn is_rlp_item(item: Seq<u8>) -> bool {
    exists|payload: Seq<u8>| #[trigger] has_payload(item, payload)
}

/// Whether `item` is the encoding of a string or a list with this payload.
pub open spec fn has_payload(item: Seq<u8>, payload: Seq<u8>) -> bool {
    &&& payload.len() < length_modulus()
    &&& item == rlp_string(payload) || item == rlp_list(payload)
}

/// Whether `raw` is the encoding of the list of `items`, each an encoding itself.
pub open spec fn is_rlp_list_of(raw: Seq<u8>, items: Seq<Seq<u8>>) -> bool {
    &&& raw == rlp_list(concat(items))
    &&& concat(items).len() < length_modulus()
    &&& forall|i: int| 0 <= i < items.len() ==> is_rlp_item(#[trigger] items[i])
}

/// No byte string is longer than it and others put end to end.
pub proof fn lemma_part_of_concat(items: Seq<Seq<u8>>, i: int)
    requires
        0 <= i < items.len(),
    ensures
        items[i].len() <= concat(items).len(),
    decreases items.len(),
{
    if i < items.len() - 1 {
        lemma_part_of_concat(items.drop_last(), i);
    }
}

/// The encoding of a measurable string is an item with that string as its payload.
pub proof fn lemma_string_item(payload: Seq<u8>)
    requires
        rlp_string(payload).len() < length_modulus(),
    ensures
        has_payload(rlp_string(payload), payload),
        is_rlp_item(rlp_string(payload)),
{
    assert(has_payload(rlp_string(payload), payload));
}

/// The encoding of a measurable list is an item with that list's items as its payload.
pub proof fn lemma_list_item(payload: Seq<u8>)
    requires
        rlp_list(payload).len() < length_modulus(),
    ensures
        has_payload(rlp_list(payload), payload),
        is_rlp_item(rlp_list(payload)),
{
    assert(has_payload(rlp_list(payload), payload));
}

} // verus!
