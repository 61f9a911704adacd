//! What an RLP encoding determines: each encoding is one of one value only.

use crate::rlp_format::{
    big_endian, concat, has_payload, is_rlp_item, is_rlp_list_of, length_modulus, rlp_header,
    rlp_list, rlp_string, rlp_uint,
};
use vstd::prelude::*;

verus! {

/// The integer that bytes are the big-endian form of.
pub open spec fn from_big_endian(bytes: Seq<u8>) -> nat
    decreases bytes.len(),
{
    if bytes.len() == 0 {
        0
    } else {
        from_big_endian(bytes.drop_last()) * 256 + bytes.last() as nat
    }
}

/// The length of the header of the item that `bytes` begin with.
pub open spec fn header_length(bytes: Seq<u8>) -> nat {
    let first = bytes[0] as nat;
    if first < 0x80 {
        0
    } else if first <= 0xb7 {
        1
    } else if first <= 0xbf {
        (1 + first - 0xb7) as nat
    } else if first <= 0xf7 {
        1
    } else {
        (1 + first - 0xf7) as nat
    }
}

/// The length of the payload of the item that `bytes` begin with.
pub open spec fn payload_length(bytes: Seq<u8>) -> nat {
    let first = bytes[0] as nat;
    if first < 0x80 {
        1
    } else if first <= 0xb7 {
        (first - 0x80) as nat
    } else if first <= 0xbf {
        from_big_endian(bytes.subrange(1, header_length(bytes) as int))
    } else if first <= 0xf7 {
        (first - 0xc0) as nat
    } else {
        from_big_endian(bytes.subrange(1, header_length(bytes) as int))
    }
}

/// An integer is the one that its big-endian form is the form of.
pub proof fn law_big_endian_is_read_back(n: nat)
    ensures
        from_big_endian(big_endian(n)) == n,
    decreases n,
{
    if n > 0 {
        law_big_endian_is_read_back(n / 256);
        assert(big_endian(n).drop_last() =~= big_endian(n / 256));
    }
}

/// The big-endian form of an integer of at most four bytes has one to four bytes, unless the
/// integer is 0.
proof fn lemma_size_length(n: nat)
    requires
        0 < n < length_modulus(),
    ensures
        1 <= big_endian(n).len() <= 4,
{
    reveal_with_fuel(big_endian, 6);
}

/// The header of an item and the bytes behind it tell the lengths of the header and of the
/// payload.
proof fn lemma_header(offset: nat, len: nat, behind: Seq<u8>)
    requires
        offset == 0x80 || offset == 0xc0,
        len < length_modulus(),
    ensures
        header_length(rlp_header(offset, len) + behind) == rlp_header(offset, len).len(),
        payload_length(rlp_header(offset, len) + behind) == len,
        rlp_header(offset, len).len() >= 1,
        (rlp_header(offset, len) + behind)[0] >= offset,
        offset == 0x80 ==> (rlp_header(offset, len) + behind)[0] < 0xc0,
{
    let header = rlp_header(offset, len);
    let bytes = header + behind;
    if len > 55 {
        assert(len % length_modulus() == len);
        let size = big_endian(len);
        lemma_size_length(len);
        law_big_endian_is_read_back(len);
        assert(bytes.subrange(1, (1 + size.len()) as int) =~= size);
        assert(header_length(bytes) == 1 + size.len());
    }
}

/// The bytes of an item tell where it ends, whatever is behind it, and what its payload is.
proof fn lemma_item(item: Seq<u8>, payload: Seq<u8>, behind: Seq<u8>)
    requires
        has_payload(item, payload),
    ensures
        item.len() >= 1,
        item.len() == header_length(item + behind) + payload_length(item + behind),
        payload == item.skip(header_length(item + behind) as int),
        item == rlp_list(payload) <==> (item + behind)[0] >= 0xc0,
{
    if item == rlp_list(payload) {
        let header = rlp_header(0xc0, payload.len());
        lemma_header(0xc0, payload.len(), payload + behind);
        assert(item + behind =~= header + (payload + behind));
        assert(item.skip(header.len() as int) =~= payload);
    } else if payload.len() == 1 && payload[0] < 0x80 {
        assert((item + behind)[0] == payload[0]);
        assert(item.skip(0) =~= payload);
    } else {
        let header = rlp_header(0x80, payload.len());
        lemma_header(0x80, payload.len(), payload + behind);
        assert(item + behind =~= header + (payload + behind));
        assert(item.skip(header.len() as int) =~= payload);
    }
    if item == rlp_list(payload) && item == rlp_string(payload) {
        lemma_header(0xc0, payload.len(), payload);
        lemma_header(0x80, payload.len(), payload);
    }
}

/// A list whose header can hold the length of its payload has an encoding that no list with a
/// longer payload has.
pub proof fn law_measurable_list_is_told_apart(p: Seq<u8>, q: Seq<u8>)
    requires
        rlp_list(p) == rlp_list(q),
        p.len() < length_modulus(),
    ensures
        p == q,
{
    if q.len() >= length_modulus() {
        let size = big_endian(q.len() % length_modulus());
        if q.len() % length_modulus() > 0 {
            lemma_size_length(q.len() % length_modulus());
        }
        assert(rlp_list(q)[0] == (0xc0 + 55 + size.len()) as u8);
        assert(rlp_list(q).len() == 1 + size.len() + q.len());
        if p.len() > 55 {
            lemma_size_length(p.len());
            assert(rlp_list(p)[0] == (0xc0 + 55 + big_endian(p.len()).len()) as u8);
        }
    }
    law_payload_is_unique(rlp_list(p), p, q);
}

/// An item has one payload.
pub proof fn law_payload_is_unique(item: Seq<u8>, p: Seq<u8>, q: Seq<u8>)
    requires
        has_payload(item, p),
        has_payload(item, q),
    ensures
        p == q,
{
    lemma_item(item, p, Seq::empty());
    lemma_item(item, q, Seq::empty());
}

/// Measurable byte strings with the same encoding are the same.
pub proof fn law_string_encoding_is_injective(p: Seq<u8>, q: Seq<u8>)
    requires
        rlp_string(p) == rlp_string(q),
        p.len() < length_modulus(),
        q.len() < length_modulus(),
    ensures
        p == q,
{
    law_payload_is_unique(rlp_string(p), p, q);
}

/// Integers with the same, measurable encoding are the same.
pub proof fn law_uint_encoding_is_injective(m: nat, n: nat)
    requires
        rlp_uint(m) == rlp_uint(n),
        rlp_uint(m).len() < length_modulus(),
    ensures
        m == n,
{
    law_string_encoding_is_injective(big_endian(m), big_endian(n));
    law_big_endian_is_read_back(m);
    law_big_endian_is_read_back(n);
}

/// Byte strings put end to end begin with the first of them.
proof fn lemma_concat_first(items: Seq<Seq<u8>>)
    requires
        items.len() > 0,
    ensures
        concat(items) == items[0] + concat(items.skip(1)),
    decreases items.len(),
{
    if items.len() == 1 {
        assert(items.drop_last() =~= Seq::empty());
        assert(items.skip(1) =~= Seq::empty());
        assert(concat(items) =~= items[0] + concat(items.skip(1)));
    } else {
        lemma_concat_first(items.drop_last());
        assert(items.drop_last().skip(1) =~= items.skip(1).drop_last());
        assert(concat(items) =~= items[0] + concat(items.skip(1)));
    }
}

/// Items put end to end can be told apart again in one way only.
pub proof fn law_items_are_told_apart(a: Seq<Seq<u8>>, b: Seq<Seq<u8>>)
    requires
        concat(a) == concat(b),
        forall|i: int| 0 <= i < a.len() ==> is_rlp_item(#[trigger] a[i]),
        forall|i: int| 0 <= i < b.len() ==> is_rlp_item(#[trigger] b[i]),
    ensures
        a == b,
    decreases a.len(),
{
    if a.len() > 0 {
        lemma_concat_first(a);
        let p = choose|p: Seq<u8>| #[trigger] has_payload(a[0], p);
        lemma_item(a[0], p, concat(a.skip(1)));
    }
    if b.len() > 0 {
        lemma_concat_first(b);
        let q = choose|q: Seq<u8>| #[trigger] has_payload(b[0], q);
        lemma_item(b[0], q, concat(b.skip(1)));
    }
    if a.len() == 0 || b.len() == 0 {
        assert(a =~= b);
    } else {
        let len = a[0].len() as int;
        assert(a[0] =~= concat(a).take(len));
        assert(b[0] =~= concat(b).take(len));
        assert(concat(a.skip(1)) =~= concat(a).skip(len));
        assert(concat(b.skip(1)) =~= concat(b).skip(len));
        law_items_are_told_apart(a.skip(1), b.skip(1));
        assert(a =~= seq![a[0]] + a.skip(1));
        assert(b =~= seq![b[0]] + b.skip(1));
    }
}

/// The encoding of a list is that of one list of items only.
pub proof fn law_list_items_are_unique(raw: Seq<u8>, a: Seq<Seq<u8>>, b: Seq<Seq<u8>>)
    requires
        is_rlp_list_of(raw, a),
        is_rlp_list_of(raw, b),
    ensures
        a == b,
{
    law_payload_is_unique(raw, concat(a), concat(b));
    law_items_are_told_apart(a, b);
}

} // verus!
