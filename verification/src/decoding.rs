//! How the parts of a transaction are read back from RLP.

use crate::codec::{
    decode_address, decode_h256, decode_u256, decode_u64, gives, item_at, payload, result_view,
    rlp_address, rlp_h256, rlp_item_at, rlp_payload, rlp_u256, rlp_u64,
};
use crate::encoding::{access_list_field, entries, entry_field, entry_fields, strings};
use crate::primitives::{opt_view, u256_bound, Address, Bytes, H256, U256};
use crate::rlp_format::{concat, has_payload, is_rlp_list_of, rlp_string, rlp_uint};
use crate::transaction::{AccessList, AccessListItem, AccessListItemView};
use rlp::DecoderError;
use vstd::prelude::*;

verus! {

/// The raw item at a position of a list.
pub open spec fn raw_at(raw: Seq<u8>, index: nat) -> Result<Seq<u8>, DecoderError> {
    rlp_item_at(raw, index, usize::BITS)
}

/// The `u64` at a position of a list.
pub open spec fn u64_at(raw: Seq<u8>, index: nat) -> Result<u64, DecoderError> {
    match raw_at(raw, index) {
        Ok(item) => rlp_u64(item, usize::BITS),
        Err(e) => Err(e),
    }
}

/// The 256-bit integer at a position of a list.
pub open spec fn u256_at(raw: Seq<u8>, index: nat) -> Result<nat, DecoderError> {
    match raw_at(raw, index) {
        Ok(item) => rlp_u256(item, usize::BITS),
        Err(e) => Err(e),
    }
}

/// The hash at a position of a list.
pub open spec fn h256_at(raw: Seq<u8>, index: nat) -> Result<Seq<u8>, DecoderError> {
    match raw_at(raw, index) {
        Ok(item) => rlp_h256(item, usize::BITS),
        Err(e) => Err(e),
    }
}

/// The payload of the item at a position of a list.
pub open spec fn payload_at(raw: Seq<u8>, index: nat) -> Result<Seq<u8>, DecoderError> {
    match raw_at(raw, index) {
        Ok(item) => rlp_payload(item, usize::BITS),
        Err(e) => Err(e),
    }
}

/// The recipient at a position of a list: an empty string is none, all else must be an
/// address.
pub open spec fn recipient_at(raw: Seq<u8>, index: nat) -> Result<Option<Seq<u8>>, DecoderError> {
    match raw_at(raw, index) {
        Ok(item) => if item.len() > 0 && item[0] == 0x80 {
            Ok(None)
        } else {
            match rlp_address(item, usize::BITS) {
                Ok(address) => Ok(Some(address)),
                Err(e) => Err(e),
            }
        },
        Err(e) => Err(e),
    }
}

/// The hashes of a list from a position on, up to the first position that holds no item.
pub open spec fn hashes_from(list: Seq<u8>, index: nat) -> Result<Seq<Seq<u8>>, DecoderError>
    decreases list.len() - index,
{
    if index >= list.len() || raw_at(list, index) is Err {
        Ok(Seq::empty())
    } else {
        match rlp_h256(raw_at(list, index)->Ok_0, usize::BITS) {
            Err(e) => Err(e),
            Ok(hash) => match hashes_from(list, index + 1) {
                Err(e) => Err(e),
                Ok(rest) => Ok(seq![hash] + rest),
            },
        }
    }
}

/// An access list entry: an address, then a list of storage slots.
pub open spec fn decoded_entry(item: Seq<u8>) -> Result<AccessListItemView, DecoderError> {
    match raw_at(item, 0) {
        Err(e) => Err(e),
        Ok(first) => match rlp_address(first, usize::BITS) {
            Err(e) => Err(e),
            Ok(address) => match raw_at(item, 1) {
                Err(e) => Err(e),
                Ok(second) => match hashes_from(second, 0) {
                    Err(e) => Err(e),
                    Ok(storage_keys) => Ok(AccessListItemView { address, storage_keys }),
                },
            },
        },
    }
}

/// The entries of an access list from a position on, up to the first position that holds
/// no item.
pub open spec fn entries_from(list: Seq<u8>, index: nat) -> Result<
    Seq<AccessListItemView>,
    DecoderError,
>
    decreases list.len() - index,
{
    if index >= list.len() || raw_at(list, index) is Err {
        Ok(Seq::empty())
    } else {
        match decoded_entry(raw_at(list, index)->Ok_0) {
            Err(e) => Err(e),
            Ok(entry) => match entries_from(list, index + 1) {
                Err(e) => Err(e),
                Ok(rest) => Ok(seq![entry] + rest),
            },
        }
    }
}

/// The access list at a position of a list; one with an empty payload has no entries.
pub open spec fn access_list_at(raw: Seq<u8>, index: nat) -> Result<
    Seq<AccessListItemView>,
    DecoderError,
> {
    match payload_at(raw, index) {
        Err(e) => Err(e),
        Ok(content) => if content.len() == 0 {
            Ok(Seq::empty())
        } else {
            entries_from(raw_at(raw, index)->Ok_0, 0)
        },
    }
}

/// Reads the `u64` at a position.
pub(crate) fn read_u64(raw: &[u8], index: usize) -> (r: Result<u64, DecoderError>)
    ensures
        r == u64_at(raw@, index as nat),
        r is Ok ==> index < raw@.len(),
        forall|items: Seq<Seq<u8>>, n: u64|
            #![trigger is_rlp_list_of(raw@, items), rlp_uint(n as nat)]
            is_rlp_list_of(raw@, items) && index < items.len() && items[index as int] == rlp_uint(
                n as nat,
            ) ==> gives(r, n),
{
    match item_at(raw, index) {
        Ok(item) => decode_u64(item),
        Err(e) => Err(e),
    }
}

/// Reads the 256-bit integer at a position.
pub(crate) fn read_u256(raw: &[u8], index: usize) -> (r: Result<U256, DecoderError>)
    ensures
        result_view(r) == u256_at(raw@, index as nat),
        r is Ok ==> index < raw@.len(),
        forall|items: Seq<Seq<u8>>| #[trigger]
            is_rlp_list_of(raw@, items) && index >= items.len() ==> r is Err,
        forall|items: Seq<Seq<u8>>, n: nat|
            #![trigger is_rlp_list_of(raw@, items), rlp_uint(n)]
            is_rlp_list_of(raw@, items) && index < items.len() && items[index as int] == rlp_uint(n)
                && n < u256_bound() ==> gives(r, n),
{
    match item_at(raw, index) {
        Ok(item) => decode_u256(item),
        Err(e) => Err(e),
    }
}

/// Reads the hash at a position.
pub(crate) fn read_h256(raw: &[u8], index: usize) -> (r: Result<H256, DecoderError>)
    ensures
        result_view(r) == h256_at(raw@, index as nat),
        r is Ok ==> index < raw@.len(),
        forall|items: Seq<Seq<u8>>, h: Seq<u8>|
            #![trigger is_rlp_list_of(raw@, items), rlp_string(h)]
            is_rlp_list_of(raw@, items) && index < items.len() && items[index as int] == rlp_string(
                h,
            ) && h.len() == 32 ==> gives(r, h),
{
    match item_at(raw, index) {
        Ok(item) => decode_h256(item),
        Err(e) => Err(e),
    }
}

/// Reads the payload at a position.
pub(crate) fn read_payload(raw: &[u8], index: usize) -> (r: Result<Bytes, DecoderError>)
    ensures
        result_view(r) == payload_at(raw@, index as nat),
        r is Ok ==> index < raw@.len(),
        forall|items: Seq<Seq<u8>>, p: Seq<u8>|
            #![trigger is_rlp_list_of(raw@, items), has_payload(items[index as int], p)]
            is_rlp_list_of(raw@, items) && index < items.len() && has_payload(
                items[index as int],
                p,
            ) ==> gives(r, p),
{
    match item_at(raw, index) {
        Ok(item) => match payload(item) {
            Ok(content) => {
                let mut copy: Vec<u8> = Vec::new();
                copy.extend_from_slice(content);
                assert(copy@ =~= content@);
                Ok(Bytes(copy))
            },
            Err(e) => Err(e),
        },
        Err(e) => Err(e),
    }
}

/// The views of hashes.
pub open spec fn hash_views(hashes: Seq<H256>) -> Seq<Seq<u8>> {
    Seq::new(hashes.len(), |i: int| hashes[i]@)
}

/// The views of access list entries.
pub open spec fn entry_views(items: Seq<AccessListItem>) -> Seq<AccessListItemView> {
    Seq::new(items.len(), |i: int| items[i]@)
}

/// Whether byte strings all are 32 bytes long.
pub open spec fn all_hashes(keys: Seq<Seq<u8>>) -> bool {
    forall|i: int| 0 <= i < keys.len() ==> (#[trigger] keys[i]).len() == 32
}

/// Reads the recipient at a position.
pub(crate) fn read_recipient(raw: &[u8], index: usize) -> (r: Result<
    Option<Address>,
    DecoderError,
>)
    ensures
        (match r {
            Ok(to) => Ok::<Option<Seq<u8>>, DecoderError>(opt_view(to)),
            Err(e) => Err(e),
        }) == recipient_at(raw@, index as nat),
        r is Ok ==> index < raw@.len(),
        forall|items: Seq<Seq<u8>>, a: Seq<u8>|
            #![trigger is_rlp_list_of(raw@, items), rlp_string(a)]
            is_rlp_list_of(raw@, items) && index < items.len() && items[index as int] == rlp_string(
                a,
            ) ==> {
                &&& a.len() == 0 ==> (r matches Ok(to) && to is None)
                &&& a.len() == 20 ==> (r matches Ok(to) && opt_view(to) == Some(a))
            },
{
    match item_at(raw, index) {
        Ok(item) => if item.len() > 0 && item[0] == 0x80 {
            Ok(None)
        } else {
            match decode_address(item) {
                Ok(address) => Ok(Some(address)),
                Err(e) => Err(e),
            }
        },
        Err(e) => Err(e),
    }
}

/// Reads a list of hashes.
pub(crate) fn read_hashes(list: &[u8]) -> (r: Result<Vec<H256>, DecoderError>)
    ensures
        (match r {
            Ok(hashes) => Ok::<Seq<Seq<u8>>, DecoderError>(hash_views(hashes@)),
            Err(e) => Err(e),
        }) == hashes_from(list@, 0),
        forall|keys: Seq<Seq<u8>>|
            is_rlp_list_of(list@, #[trigger] strings(keys)) && all_hashes(keys) ==> (r matches Ok(
                hashes,
            ) && hash_views(hashes@) == keys),
{
    let len = list.len();
    let mut hashes: Vec<H256> = Vec::new();
    let mut i: usize = 0;
    assert(hash_views(hashes@) =~= Seq::empty());
    proof {
        if hashes_from(list@, 0) is Ok {
            let all = hashes_from(list@, 0)->Ok_0;
            assert(hash_views(hashes@) + all =~= all);
        }
        assert forall|keys: Seq<Seq<u8>>|
            is_rlp_list_of(list@, #[trigger] strings(keys)) && all_hashes(keys) implies hash_views(
            hashes@,
        ) == keys.take(0) by {
            assert(hash_views(hashes@) =~= keys.take(0));
        }
    }
    loop
        invariant
            len == list@.len(),
            hashes@.len() == i,
            i <= len,
            match hashes_from(list@, i as nat) {
                Ok(rest) => hashes_from(list@, 0) == Ok::<Seq<Seq<u8>>, DecoderError>(
                    hash_views(hashes@) + rest,
                ),
                Err(e) => hashes_from(list@, 0) == Err::<Seq<Seq<u8>>, DecoderError>(e),
            },
            forall|keys: Seq<Seq<u8>>|
                is_rlp_list_of(list@, #[trigger] strings(keys)) && all_hashes(keys) ==> i
                    <= keys.len() && hash_views(hashes@) == keys.take(i as int),
        decreases len - i,
    {
        match item_at(list, i) {
            Err(_) => {
                proof {
                    assert(hash_views(hashes@) + Seq::empty() =~= hash_views(hashes@));
                    assert forall|keys: Seq<Seq<u8>>|
                        is_rlp_list_of(list@, #[trigger] strings(keys)) && all_hashes(
                            keys,
                        ) implies hash_views(hashes@) == keys by {
                        assert(keys.take(keys.len() as int) =~= keys);
                    }
                }
                return Ok(hashes);
            },
            Ok(item) => {
                let hash = match decode_h256(item) {
                    Err(e) => {
                        return Err(e);
                    },
                    Ok(hash) => hash,
                };
                let ghost before = hashes@;
                hashes.push(hash);
                proof {
                    assert(hash_views(hashes@) =~= hash_views(before).push(hash@));
                    if hashes_from(list@, (i + 1) as nat) is Ok {
                        let rest = hashes_from(list@, (i + 1) as nat)->Ok_0;
                        assert(hash_views(before) + (seq![hash@] + rest) =~= hash_views(hashes@)
                            + rest);
                    }
                    assert forall|keys: Seq<Seq<u8>>|
                        is_rlp_list_of(list@, #[trigger] strings(keys)) && all_hashes(
                            keys,
                        ) implies i + 1 <= keys.len() && hash_views(hashes@) == keys.take(
                        i + 1,
                    ) by {
                        assert(i < strings(keys).len());
                        assert(strings(keys)[i as int] == rlp_string(keys[i as int]));
                        assert(keys.take(i + 1) =~= keys.take(i as int).push(keys[i as int]));
                    }
                }
                i = i + 1;
            },
        }
    }
}

/// Whether an entry has an address and hashes of the right lengths, and lengths that its
/// headers can measure.
pub open spec fn readable_entry(entry: AccessListItemView) -> bool {
    &&& entry.address.len() == 20
    &&& all_hashes(entry.storage_keys)
    &&& is_rlp_list_of(entry_field(entry), entry_fields(entry))
    &&& is_rlp_list_of(entry_fields(entry)[1], strings(entry.storage_keys))
}

/// Whether all entries are readable.
pub open spec fn all_readable(list: Seq<AccessListItemView>) -> bool {
    forall|i: int| 0 <= i < list.len() ==> readable_entry(#[trigger] list[i])
}

/// Reads an access list entry.
pub(crate) fn read_entry(item: &[u8]) -> (r: Result<AccessListItem, DecoderError>)
    ensures
        result_view(r) == decoded_entry(item@),
        forall|entry: AccessListItemView|
            item@ == #[trigger] entry_field(entry) && readable_entry(entry) ==> gives(r, entry),
{
    let first = match item_at(item, 0) {
        Err(e) => {
            return Err(e);
        },
        Ok(first) => first,
    };
    let address = match decode_address(first) {
        Err(e) => {
            return Err(e);
        },
        Ok(address) => address,
    };
    let second = match item_at(item, 1) {
        Err(e) => {
            return Err(e);
        },
        Ok(second) => second,
    };
    let storage_keys = match read_hashes(second) {
        Err(e) => {
            return Err(e);
        },
        Ok(storage_keys) => storage_keys,
    };
    let entry = AccessListItem { address, storage_keys };
    assert(entry@.storage_keys == hash_views(storage_keys@));
    Ok(entry)
}

/// Reads the entries of an access list.
pub(crate) fn read_entries(list: &[u8]) -> (r: Result<AccessList, DecoderError>)
    ensures
        result_view(r) == entries_from(list@, 0),
        forall|model: Seq<AccessListItemView>|
            is_rlp_list_of(list@, #[trigger] entries(model)) && all_readable(model) ==> gives(
                r,
                model,
            ),
{
    let len = list.len();
    let mut found: Vec<AccessListItem> = Vec::new();
    let mut i: usize = 0;
    assert(entry_views(found@) =~= Seq::empty());
    proof {
        if entries_from(list@, 0) is Ok {
            assert(entry_views(found@) + entries_from(list@, 0)->Ok_0 =~= entries_from(
                list@,
                0,
            )->Ok_0);
        }
        assert forall|model: Seq<AccessListItemView>|
            is_rlp_list_of(list@, #[trigger] entries(model)) && all_readable(
                model,
            ) implies entry_views(found@) == model.take(0) by {
            assert(entry_views(found@) =~= model.take(0));
        }
    }
    loop
        invariant
            len == list@.len(),
            found@.len() == i,
            i <= len,
            match entries_from(list@, i as nat) {
                Ok(rest) => entries_from(list@, 0) == Ok::<Seq<AccessListItemView>, DecoderError>(
                    entry_views(found@) + rest,
                ),
                Err(e) => entries_from(list@, 0) == Err::<Seq<AccessListItemView>, DecoderError>(
                    e,
                ),
            },
            forall|model: Seq<AccessListItemView>|
                is_rlp_list_of(list@, #[trigger] entries(model)) && all_readable(model) ==> i
                    <= model.len() && entry_views(found@) == model.take(i as int),
        decreases len - i,
    {
        match item_at(list, i) {
            Err(_) => {
                proof {
                    assert(entry_views(found@) + Seq::empty() =~= entry_views(found@));
                    assert(AccessList(found)@ == entry_views(found@));
                    assert forall|model: Seq<AccessListItemView>|
                        is_rlp_list_of(list@, #[trigger] entries(model)) && all_readable(
                            model,
                        ) implies entry_views(found@) == model by {
                        assert(model.take(model.len() as int) =~= model);
                    }
                }
                return Ok(AccessList(found));
            },
            Ok(item) => {
                let entry = match read_entry(item) {
                    Err(e) => {
                        proof {
                            assert forall|model: Seq<AccessListItemView>|
                                is_rlp_list_of(list@, #[trigger] entries(model)) && all_readable(
                                    model,
                                ) implies false by {
                                assert(i < entries(model).len());
                                assert(entries(model)[i as int] == entry_field(model[i as int]));
                            }
                        }
                        return Err(e);
                    },
                    Ok(entry) => entry,
                };
                let ghost before = found@;
                found.push(entry);
                proof {
                    assert(entry_views(found@) =~= entry_views(before).push(entry@));
                    if entries_from(list@, (i + 1) as nat) is Ok {
                        let rest = entries_from(list@, (i + 1) as nat)->Ok_0;
                        assert(entry_views(before) + (seq![entry@] + rest) =~= entry_views(found@)
                            + rest);
                    }
                    assert forall|model: Seq<AccessListItemView>|
                        is_rlp_list_of(list@, #[trigger] entries(model)) && all_readable(
                            model,
                        ) implies i + 1 <= model.len() && entry_views(found@) == model.take(
                        i + 1,
                    ) by {
                        assert(i < entries(model).len());
                        assert(entries(model)[i as int] == entry_field(model[i as int]));
                        assert(model.take(i + 1) =~= model.take(i as int).push(model[i as int]));
                    }
                }
                i = i + 1;
            },
        }
    }
}

/// Reads the access list at a position.
pub(crate) fn read_access_list(raw: &[u8], index: usize) -> (r: Result<AccessList, DecoderError>)
    ensures
        result_view(r) == access_list_at(raw@, index as nat),
        r is Ok ==> index < raw@.len(),
        forall|items: Seq<Seq<u8>>| #[trigger]
            is_rlp_list_of(raw@, items) && index >= items.len() ==> r is Err,
        forall|items: Seq<Seq<u8>>, model: Seq<AccessListItemView>|
            #![trigger is_rlp_list_of(raw@, items), access_list_field(model)]
            is_rlp_list_of(raw@, items) && index < items.len() && items[index as int]
                == access_list_field(model) && is_rlp_list_of(
                access_list_field(model),
                entries(model),
            ) && all_readable(model) ==> gives(r, model),
{
    let item = match item_at(raw, index) {
        Err(e) => {
            return Err(e);
        },
        Ok(item) => item,
    };
    let content = match payload(item) {
        Err(e) => {
            proof {
                assert forall|items: Seq<Seq<u8>>, model: Seq<AccessListItemView>|
                    is_rlp_list_of(raw@, items) && index < items.len() && items[index as int]
                        == access_list_field(model) && #[trigger] is_rlp_list_of(
                        access_list_field(model),
                        entries(model),
                    ) && #[trigger] is_rlp_list_of(raw@, items) implies false by {
                    assert(has_payload(item@, concat(entries(model))));
                }
            }
            return Err(e);
        },
        Ok(content) => content,
    };
    if content.len() == 0 {
        proof {
            assert forall|items: Seq<Seq<u8>>, model: Seq<AccessListItemView>|
                #![trigger is_rlp_list_of(raw@, items), access_list_field(model)]
                is_rlp_list_of(raw@, items) && index < items.len() && items[index as int]
                    == access_list_field(model) && is_rlp_list_of(
                    access_list_field(model),
                    entries(model),
                ) implies model.len() == 0 by {
                assert(has_payload(item@, concat(entries(model))));
                if model.len() > 0 {
                    assert(entries(model).last() == entry_field(model.last()));
                }
            }
        }
        let r = AccessList::empty();
        assert forall|model: Seq<AccessListItemView>| model.len() == 0 implies #[trigger] gives(
            Ok::<AccessList, DecoderError>(r),
            model,
        ) by {
            assert(model =~= r@);
        }
        Ok(r)
    } else {
        read_entries(item)
    }
}

} // verus!
