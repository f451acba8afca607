use core::fmt::Debug;
use std::collections::BTreeMap;
use vstd::bytes::{
    lemma_auto_spec_u128_to_from_le_bytes, spec_u128_from_le_bytes, spec_u128_to_le_bytes,
    u128_from_le_bytes,
};
use vstd::laws_cmp::obeys_cmp;
use vstd::prelude::*;
use vstd::std_specs::cmp::OrdSpec;

verus! {

/// Whether the order of `K` obeys the laws of a total order that agrees with
/// equality. `BTreeMap` behaves as a mathematical map only for such keys.
pub open spec fn lawful_order<K: Ord>() -> bool {
    obeys_cmp::<K>()
}

/// A type that can key a diffable map: its order is a lawful total order, so
/// that a `BTreeMap` keyed by it behaves as the mathematical map it stands
/// for.
pub trait MapKey: Ord + Debug + Sized {
    /// The order of this type obeys the laws of a total order.
    proof fn lemma_lawful_order()
        ensures
            lawful_order::<Self>(),
    ;
}

/// Takes the entry with the least key out of a map, by
/// `BTreeMap::pop_first`.
///
/// Claimed of `pop_first`, for keys with a lawful order: it returns `None`
/// exactly on an empty map, which it leaves as it is; otherwise it returns the
/// entry of the map with the least key, that is, no key of the map is less
/// than its key, and removes that entry and nothing else.
#[verifier::external_body]
pub(crate) fn take_first<K: Ord, V>(m: &mut BTreeMap<K, V>) -> (entry: Option<(K, V)>)
    requires
        lawful_order::<K>(),
    ensures
        match entry {
            None => old(m)@.dom() == Set::<K>::empty() && final(m)@ == old(m)@,
            Some((k, v)) => {
                &&& old(m)@.contains_key(k)
                &&& old(m)@[k] == v
                &&& final(m)@ == old(m)@.remove(k)
                &&& forall|other: K| #[trigger]
                    old(m)@.contains_key(other) ==> !(other.cmp_spec(&k) is Less)
            },
        },
{
    m.pop_first()
}

impl MapKey for u8 {
    proof fn lemma_lawful_order() {
        broadcast use vstd::laws_cmp::group_laws_cmp;

    }
}

impl MapKey for u16 {
    proof fn lemma_lawful_order() {
        broadcast use vstd::laws_cmp::group_laws_cmp;

    }
}

impl MapKey for u32 {
    proof fn lemma_lawful_order() {
        broadcast use vstd::laws_cmp::group_laws_cmp;

    }
}

impl MapKey for u64 {
    proof fn lemma_lawful_order() {
        broadcast use vstd::laws_cmp::group_laws_cmp;

    }
}

impl MapKey for u128 {
    proof fn lemma_lawful_order() {
        broadcast use vstd::laws_cmp::group_laws_cmp;

    }
}

impl MapKey for i8 {
    proof fn lemma_lawful_order() {
        broadcast use vstd::laws_cmp::group_laws_cmp;

    }
}

impl MapKey for i16 {
    proof fn lemma_lawful_order() {
        broadcast use vstd::laws_cmp::group_laws_cmp;

    }
}

impl MapKey for i32 {
    proof fn lemma_lawful_order() {
        broadcast use vstd::laws_cmp::group_laws_cmp;

    }
}

impl MapKey for i64 {
    proof fn lemma_lawful_order() {
        broadcast use vstd::laws_cmp::group_laws_cmp;

    }
}

impl MapKey for i128 {
    proof fn lemma_lawful_order() {
        broadcast use vstd::laws_cmp::group_laws_cmp;

    }
}

/// Pairs of keys, ordered by the first key and then by the second.
impl<A: MapKey, B: MapKey> MapKey for (A, B) {
    proof fn lemma_lawful_order() {
        broadcast use vstd::laws_cmp::group_laws_cmp;

        A::lemma_lawful_order();
        B::lemma_lawful_order();
    }
}

/// Triples of keys, ordered by the first key, then the second, then the
/// third.
impl<A: MapKey, B: MapKey, C: MapKey> MapKey for (A, B, C) {
    proof fn lemma_lawful_order() {
        broadcast use vstd::laws_cmp::group_laws_cmp;

        A::lemma_lawful_order();
        B::lemma_lawful_order();
        C::lemma_lawful_order();
    }
}

/// The key that stands for 32 bytes, such as an account id or a public key:
/// the number that the first 16 bytes spell, and the number that the last 16
/// bytes spell.
pub open spec fn bytes_key(bytes: Seq<u8>) -> (u128, u128) {
    (
        spec_u128_from_le_bytes(bytes.subrange(0, 16)),
        spec_u128_from_le_bytes(bytes.subrange(16, 32)),
    )
}

/// Different bytes have different keys.
pub proof fn lemma_bytes_key_injective(a: Seq<u8>, b: Seq<u8>)
    requires
        a.len() == 32,
        b.len() == 32,
        bytes_key(a) == bytes_key(b),
    ensures
        a == b,
{
    lemma_auto_spec_u128_to_from_le_bytes();
    assert(a.subrange(0, 16) == spec_u128_to_le_bytes(
        spec_u128_from_le_bytes(a.subrange(0, 16)),
    ));
    assert(b.subrange(0, 16) == spec_u128_to_le_bytes(
        spec_u128_from_le_bytes(b.subrange(0, 16)),
    ));
    assert(a.subrange(16, 32) == spec_u128_to_le_bytes(
        spec_u128_from_le_bytes(a.subrange(16, 32)),
    ));
    assert(b.subrange(16, 32) == spec_u128_to_le_bytes(
        spec_u128_from_le_bytes(b.subrange(16, 32)),
    ));
    assert(a =~= a.subrange(0, 16) + a.subrange(16, 32));
    assert(b =~= b.subrange(0, 16) + b.subrange(16, 32));
}

/// Turns 32 bytes into the key that stands for them.
pub fn key_of_bytes(bytes: &[u8; 32]) -> (key: (u128, u128))
    ensures
        key == bytes_key(bytes@),
{
    let (front, back) = bytes.as_slice().split_at(16);
    (u128_from_le_bytes(front), u128_from_le_bytes(back))
}

} // verus!
