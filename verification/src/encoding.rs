//! How the parts of a transaction are written down in RLP.

use crate::codec::{
    append_bytes, append_item, append_nothing, append_u256, begin_frame, begin_list, stream_frames,
};
use crate::primitives::{opt_view, Bytes, H256, U256};
use crate::rlp_format::{concat, rlp_list, rlp_string, rlp_uint};
use crate::transaction::{
    AccessList, AccessListItem, AccessListItemView, NameOrAddress, NameOrAddressView,
    TransactionRequest, TransactionRequestView,
};
use rlp::RlpStream;
use vstd::prelude::*;

verus! {

/// The frames of a stream after several items.
pub open spec fn append_items(frames: Seq<(nat, Seq<u8>)>, items: Seq<Seq<u8>>) -> Seq<
    (nat, Seq<u8>),
>
    decreases items.len(),
{
    if items.len() == 0 {
        frames
    } else {
        append_item(append_items(frames, items.drop_last()), items.last())
    }
}

/// An optional integer; an absent one is the empty string.
pub open spec fn opt_uint_field(v: Option<nat>) -> Seq<u8> {
    match v {
        Some(n) => rlp_uint(n),
        None => rlp_string(Seq::empty()),
    }
}

/// An optional byte string; an absent one is empty.
pub open spec fn opt_bytes_field(v: Option<Seq<u8>>) -> Seq<u8> {
    match v {
        Some(bytes) => rlp_string(bytes),
        None => rlp_string(Seq::empty()),
    }
}

/// The recipient; an absent one is the empty string. A name has no encoding before it is
/// resolved: it takes its place without leaving bytes.
pub open spec fn recipient_field(to: Option<NameOrAddressView>) -> Seq<u8> {
    match to {
        Some(NameOrAddressView::Address(address)) => rlp_string(address),
        Some(NameOrAddressView::Name(_)) => Seq::empty(),
        None => rlp_string(Seq::empty()),
    }
}

/// The six fields that transactions of all kinds with a gas price share, in order.
pub open spec fn base_fields(tx: TransactionRequestView) -> Seq<Seq<u8>> {
    seq![
        opt_uint_field(tx.nonce),
        opt_uint_field(tx.gas_price),
        opt_uint_field(tx.gas),
        recipient_field(tx.to),
        opt_uint_field(tx.value),
        opt_bytes_field(tx.data),
    ]
}

/// Byte strings, each encoded.
pub open spec fn strings(items: Seq<Seq<u8>>) -> Seq<Seq<u8>> {
    Seq::new(items.len(), |i: int| rlp_string(items[i]))
}

/// The fields of an access list entry: the account, and the list of its storage slots.
pub open spec fn entry_fields(entry: AccessListItemView) -> Seq<Seq<u8>> {
    seq![rlp_string(entry.address), rlp_list(concat(strings(entry.storage_keys)))]
}

/// The encoding of an access list entry.
pub open spec fn entry_field(entry: AccessListItemView) -> Seq<u8> {
    rlp_list(concat(entry_fields(entry)))
}

/// The entries of an access list, each encoded.
pub open spec fn entries(list: Seq<AccessListItemView>) -> Seq<Seq<u8>> {
    Seq::new(list.len(), |i: int| entry_field(list[i]))
}

/// The encoding of an access list.
pub open spec fn access_list_field(list: Seq<AccessListItemView>) -> Seq<u8> {
    rlp_list(concat(entries(list)))
}

/// One more item behind several.
pub proof fn lemma_append_step(frames: Seq<(nat, Seq<u8>)>, items: Seq<Seq<u8>>, k: int)
    requires
        0 <= k < items.len(),
    ensures
        append_items(frames, items.take(k + 1)) == append_item(
            append_items(frames, items.take(k)),
            items[k],
        ),
{
    assert(items.take(k + 1).drop_last() =~= items.take(k));
}

/// Some items and then others are all of them in a row.
pub proof fn lemma_append_both(
    frames: Seq<(nat, Seq<u8>)>,
    first: Seq<Seq<u8>>,
    second: Seq<Seq<u8>>,
)
    ensures
        append_items(append_items(frames, first), second) == append_items(frames, first + second),
    decreases second.len(),
{
    if second.len() == 0 {
        assert(first + second =~= first);
    } else {
        lemma_append_both(frames, first, second.drop_last());
        assert((first + second).drop_last() =~= first + second.drop_last());
    }
}

/// Items that do not complete the innermost list are gathered in it.
pub proof fn lemma_open_list(
    outer: Seq<(nat, Seq<u8>)>,
    len: nat,
    items: Seq<Seq<u8>>,
)
    requires
        items.len() < len,
        outer.len() >= 1,
    ensures
        append_items(outer.push((len, Seq::empty())), items) == outer.push(
            ((len - items.len()) as nat, concat(items)),
        ),
    decreases items.len(),
{
    let start = outer.push((len, Seq::<u8>::empty()));
    if items.len() == 0 {
        assert(start =~= outer.push(((len - items.len()) as nat, concat(items))));
    } else {
        lemma_open_list(outer, len, items.drop_last());
        let before = outer.push(((len - items.len() + 1) as nat, concat(items.drop_last())));
        assert(before.drop_last() =~= outer);
        assert(append_item(before, items.last()) == outer.push(
            ((len - items.len()) as nat, concat(items)),
        ));
    }
}

/// As many items as were announced complete the list, which is then one item itself.
pub proof fn lemma_whole_list(outer: Seq<(nat, Seq<u8>)>, items: Seq<Seq<u8>>)
    requires
        outer.len() >= 1,
    ensures
        append_items(begin_frame(outer, items.len()), items) == append_item(
            outer,
            rlp_list(concat(items)),
        ),
{
    if items.len() > 0 {
        lemma_open_list(outer, items.len(), items.drop_last());
        let before = outer.push((1nat, concat(items.drop_last())));
        assert(before.drop_last() =~= outer);
        assert(append_item(before, items.last()) == append_item(outer, rlp_list(concat(items))));
    }
}

/// An item is never lost: there is still a stream to write to.
pub proof fn lemma_frames_remain(frames: Seq<(nat, Seq<u8>)>, item: Seq<u8>)
    ensures
        append_item(frames, item).len() >= 1,
    decreases frames.len(),
{
    if frames.len() > 1 && frames.last().0 <= 1 {
        lemma_frames_remain(frames.drop_last(), rlp_list(frames.last().1 + item));
    }
}

/// As [`lemma_frames_remain`], of several items.
pub proof fn lemma_items_remain(frames: Seq<(nat, Seq<u8>)>, items: Seq<Seq<u8>>)
    requires
        frames.len() >= 1,
    ensures
        append_items(frames, items).len() >= 1,
{
    if items.len() > 0 {
        lemma_frames_remain(append_items(frames, items.drop_last()), items.last());
    }
}

/// Writes an optional integer.
pub(crate) fn append_opt_u256(stream: &mut RlpStream, v: &Option<U256>)
    ensures
        stream_frames(*final(stream)) == append_item(
            stream_frames(*old(stream)),
            opt_uint_field(opt_view(*v)),
        ),
{
    match v {
        Some(n) => append_u256(stream, n),
        None => {
            let nothing: [u8; 0] = [];
            append_bytes(stream, &nothing);
            assert(nothing@ =~= Seq::empty());
        },
    }
}

/// Writes an optional byte string.
pub(crate) fn append_opt_bytes(stream: &mut RlpStream, v: &Option<Bytes>)
    ensures
        stream_frames(*final(stream)) == append_item(
            stream_frames(*old(stream)),
            opt_bytes_field(opt_view(*v)),
        ),
{
    match v {
        Some(bytes) => append_bytes(stream, bytes.0.as_slice()),
        None => {
            let nothing: [u8; 0] = [];
            append_bytes(stream, &nothing);
            assert(nothing@ =~= Seq::empty());
        },
    }
}

/// Writes the recipient.
pub(crate) fn append_recipient(stream: &mut RlpStream, to: &Option<NameOrAddress>)
    ensures
        stream_frames(*final(stream)) == append_item(
            stream_frames(*old(stream)),
            recipient_field(opt_view(*to)),
        ),
{
    match to {
        Some(NameOrAddress::Address(address)) => append_bytes(stream, &address.0),
        Some(NameOrAddress::Name(_)) => append_nothing(stream),
        None => {
            let nothing: [u8; 0] = [];
            append_bytes(stream, &nothing);
            assert(nothing@ =~= Seq::empty());
        },
    }
}

impl TransactionRequest {
    /// Writes the six common fields.
    pub(crate) fn rlp_base(&self, stream: &mut RlpStream)
        ensures
            stream_frames(*final(stream)) == append_items(
                stream_frames(*old(stream)),
                base_fields(self@),
            ),
    {
        append_opt_u256(stream, &self.nonce);
        append_opt_u256(stream, &self.gas_price);
        append_opt_u256(stream, &self.gas);
        append_recipient(stream, &self.to);
        append_opt_u256(stream, &self.value);
        append_opt_bytes(stream, &self.data);
        proof {
            let start = stream_frames(*old(stream));
            let all = base_fields(self@);
            assert(all.take(0) =~= Seq::empty());
            lemma_append_step(start, all, 0);
            lemma_append_step(start, all, 1);
            lemma_append_step(start, all, 2);
            lemma_append_step(start, all, 3);
            lemma_append_step(start, all, 4);
            lemma_append_step(start, all, 5);
            assert(all.take(6) =~= all);
        }
    }
}

/// Writes the list of an entry's storage slots.
fn append_storage_keys(stream: &mut RlpStream, entry: &AccessListItem)
    requires
        stream_frames(*old(stream)).len() >= 1,
    ensures
        stream_frames(*final(stream)) == append_item(
            stream_frames(*old(stream)),
            rlp_list(concat(strings(entry@.storage_keys))),
        ),
{
    let keys: &Vec<H256> = &entry.storage_keys;
    let ghost outer = stream_frames(*stream);
    let ghost all = strings(entry@.storage_keys);
    begin_list(stream, keys.len());
    let mut i: usize = 0;
    assert(all.take(0) =~= Seq::empty());
    while i < keys.len()
        invariant
            i <= keys.len(),
            keys == entry.storage_keys,
            all == strings(entry@.storage_keys),
            stream_frames(*stream) == append_items(
                begin_frame(outer, keys@.len()),
                all.take(i as int),
            ),
        decreases keys.len() - i,
    {
        append_bytes(stream, &keys[i].0);
        proof {
            lemma_append_step(begin_frame(outer, keys@.len()), all, i as int);
        }
        i = i + 1;
    }
    proof {
        assert(all.take(i as int) =~= all);
        lemma_whole_list(outer, all);
    }
}

/// Writes one entry of an access list.
fn append_entry(stream: &mut RlpStream, entry: &AccessListItem)
    requires
        stream_frames(*old(stream)).len() >= 1,
    ensures
        stream_frames(*final(stream)) == append_item(
            stream_frames(*old(stream)),
            entry_field(entry@),
        ),
{
    let ghost outer = stream_frames(*stream);
    begin_list(stream, 2);
    append_bytes(stream, &entry.address.0);
    let ghost fields = entry_fields(entry@);
    proof {
        let begun = begin_frame(outer, 2);
        assert(fields.take(0) =~= Seq::empty());
        lemma_append_step(begun, fields, 0);
        lemma_open_list(outer, 2, fields.take(1));
    }
    append_storage_keys(stream, entry);
    proof {
        let begun = begin_frame(outer, 2);
        lemma_append_step(begun, fields, 1);
        assert(fields.take(2) =~= fields);
        lemma_whole_list(outer, fields);
    }
}

impl AccessList {
    /// Writes the whole list.
    pub(crate) fn rlp_append(&self, stream: &mut RlpStream)
        requires
            stream_frames(*old(stream)).len() >= 1,
        ensures
            stream_frames(*final(stream)) == append_item(
                stream_frames(*old(stream)),
                access_list_field(self@),
            ),
    {
        let ghost outer = stream_frames(*stream);
        let ghost all = entries(self@);
        let ghost begun = begin_frame(outer, self.0@.len());
        begin_list(stream, self.0.len());
        let mut i: usize = 0;
        proof {
            assert(all.take(0) =~= Seq::empty());
            lemma_frames_remain(outer, rlp_list(Seq::empty()));
        }
        while i < self.0.len()
            invariant
                i <= self.0.len(),
                all == entries(self@),
                begun == begin_frame(outer, self.0@.len()),
                outer.len() >= 1,
                stream_frames(*stream) == append_items(begun, all.take(i as int)),
            decreases self.0.len() - i,
        {
            proof {
                lemma_open_list(outer, self.0@.len(), all.take(i as int));
            }
            append_entry(stream, &self.0[i]);
            proof {
                lemma_append_step(begun, all, i as int);
            }
            i = i + 1;
        }
        proof {
            assert(all.take(i as int) =~= all);
            lemma_whole_list(outer, all);
        }
    }
}

} // verus!
