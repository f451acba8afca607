use crate::diff::{Comparable, Diff, Diffable};
use core::convert::Infallible;
use vstd::prelude::*;

verus! {

/// The diff of two scalars: a comparison by value, with the new value as the
/// changeset.
pub open spec fn scalar_diff<T>(old: T, new: T) -> Diff<T> {
    if old == new {
        Diff::NotChanged
    } else {
        Diff::ChangedTo(new)
    }
}

/// A scalar diffed with itself is not changed, and diffed with any other
/// value it is changed to that value.
pub proof fn lemma_scalar_diff<T>(a: T, b: T)
    ensures
        scalar_diff(a, a) == Diff::<T>::NotChanged,
        a != b ==> scalar_diff(a, b) == Diff::ChangedTo(b),
{
}

impl Comparable for () {
    type Model = ();

    open spec fn model(&self) -> () {
        ()
    }

    fn same_as(&self, other: &Self) -> (same: bool) {
        true
    }
}

impl Comparable for Infallible {
    type Model = ();

    open spec fn model(&self) -> () {
        ()
    }

    fn same_as(&self, other: &Self) -> (same: bool) {
        true
    }
}

/// The empty value never changes, so its changeset has no values.
impl Diffable for () {
    type ChangeSet = Infallible;

    open spec fn diff_model(old: (), new: ()) -> Diff<()> {
        Diff::NotChanged
    }

    proof fn lemma_not_changed_iff_same(old: (), new: ()) {
    }

    fn diff(self, _new_value: Self) -> (d: Diff<Infallible>) {
        Diff::NotChanged
    }
}

impl Comparable for u8 {
    type Model = u8;

    open spec fn model(&self) -> u8 {
        *self
    }

    fn same_as(&self, other: &Self) -> (same: bool) {
        *self == *other
    }
}

impl Diffable for u8 {
    type ChangeSet = u8;

    open spec fn diff_model(old: u8, new: u8) -> Diff<u8> {
        scalar_diff(old, new)
    }

    proof fn lemma_not_changed_iff_same(old: u8, new: u8) {
    }

    fn diff(self, new_value: Self) -> (d: Diff<u8>) {
        if self == new_value {
            Diff::NotChanged
        } else {
            Diff::ChangedTo(new_value)
        }
    }
}

impl Comparable for u16 {
    type Model = u16;

    open spec fn model(&self) -> u16 {
        *self
    }

    fn same_as(&self, other: &Self) -> (same: bool) {
        *self == *other
    }
}

impl Diffable for u16 {
    type ChangeSet = u16;

    open spec fn diff_model(old: u16, new: u16) -> Diff<u16> {
        scalar_diff(old, new)
    }

    proof fn lemma_not_changed_iff_same(old: u16, new: u16) {
    }

    fn diff(self, new_value: Self) -> (d: Diff<u16>) {
        if self == new_value {
            Diff::NotChanged
        } else {
            Diff::ChangedTo(new_value)
        }
    }
}

impl Comparable for u32 {
    type Model = u32;

    open spec fn model(&self) -> u32 {
        *self
    }

    fn same_as(&self, other: &Self) -> (same: bool) {
        *self == *other
    }
}

impl Diffable for u32 {
    type ChangeSet = u32;

    open spec fn diff_model(old: u32, new: u32) -> Diff<u32> {
        scalar_diff(old, new)
    }

    proof fn lemma_not_changed_iff_same(old: u32, new: u32) {
    }

    fn diff(self, new_value: Self) -> (d: Diff<u32>) {
        if self == new_value {
            Diff::NotChanged
        } else {
            Diff::ChangedTo(new_value)
        }
    }
}

impl Comparable for u64 {
    type Model = u64;

    open spec fn model(&self) -> u64 {
        *self
    }

    fn same_as(&self, other: &Self) -> (same: bool) {
        *self == *other
    }
}

impl Diffable for u64 {
    type ChangeSet = u64;

    open spec fn diff_model(old: u64, new: u64) -> Diff<u64> {
        scalar_diff(old, new)
    }

    proof fn lemma_not_changed_iff_same(old: u64, new: u64) {
    }

    fn diff(self, new_value: Self) -> (d: Diff<u64>) {
        if self == new_value {
            Diff::NotChanged
        } else {
            Diff::ChangedTo(new_value)
        }
    }
}

impl Comparable for u128 {
    type Model = u128;

    open spec fn model(&self) -> u128 {
        *self
    }

    fn same_as(&self, other: &Self) -> (same: bool) {
        *self == *other
    }
}

impl Diffable for u128 {
    type ChangeSet = u128;

    open spec fn diff_model(old: u128, new: u128) -> Diff<u128> {
        scalar_diff(old, new)
    }

    proof fn lemma_not_changed_iff_same(old: u128, new: u128) {
    }

    fn diff(self, new_value: Self) -> (d: Diff<u128>) {
        if self == new_value {
            Diff::NotChanged
        } else {
            Diff::ChangedTo(new_value)
        }
    }
}

impl Comparable for i8 {
    type Model = i8;

    open spec fn model(&self) -> i8 {
        *self
    }

    fn same_as(&self, other: &Self) -> (same: bool) {
        *self == *other
    }
}

impl Diffable for i8 {
    type ChangeSet = i8;

    open spec fn diff_model(old: i8, new: i8) -> Diff<i8> {
        scalar_diff(old, new)
    }

    proof fn lemma_not_changed_iff_same(old: i8, new: i8) {
    }

    fn diff(self, new_value: Self) -> (d: Diff<i8>) {
        if self == new_value {
            Diff::NotChanged
        } else {
            Diff::ChangedTo(new_value)
        }
    }
}

impl Comparable for i16 {
    type Model = i16;

    open spec fn model(&self) -> i16 {
        *self
    }

    fn same_as(&self, other: &Self) -> (same: bool) {
        *self == *other
    }
}

impl Diffable for i16 {
    type ChangeSet = i16;

    open spec fn diff_model(old: i16, new: i16) -> Diff<i16> {
        scalar_diff(old, new)
    }

    proof fn lemma_not_changed_iff_same(old: i16, new: i16) {
    }

    fn diff(self, new_value: Self) -> (d: Diff<i16>) {
        if self == new_value {
            Diff::NotChanged
        } else {
            Diff::ChangedTo(new_value)
        }
    }
}

impl Comparable for i32 {
    type Model = i32;

    open spec fn model(&self) -> i32 {
        *self
    }

    fn same_as(&self, other: &Self) -> (same: bool) {
        *self == *other
    }
}

impl Diffable for i32 {
    type ChangeSet = i32;

    open spec fn diff_model(old: i32, new: i32) -> Diff<i32> {
        scalar_diff(old, new)
    }

    proof fn lemma_not_changed_iff_same(old: i32, new: i32) {
    }

    fn diff(self, new_value: Self) -> (d: Diff<i32>) {
        if self == new_value {
            Diff::NotChanged
        } else {
            Diff::ChangedTo(new_value)
        }
    }
}

impl Comparable for i64 {
    type Model = i64;

    open spec fn model(&self) -> i64 {
        *self
    }

    fn same_as(&self, other: &Self) -> (same: bool) {
        *self == *other
    }
}

impl Diffable for i64 {
    type ChangeSet = i64;

    open spec fn diff_model(old: i64, new: i64) -> Diff<i64> {
        scalar_diff(old, new)
    }

    proof fn lemma_not_changed_iff_same(old: i64, new: i64) {
    }

    fn diff(self, new_value: Self) -> (d: Diff<i64>) {
        if self == new_value {
            Diff::NotChanged
        } else {
            Diff::ChangedTo(new_value)
        }
    }
}

impl Comparable for i128 {
    type Model = i128;

    open spec fn model(&self) -> i128 {
        *self
    }

    fn same_as(&self, other: &Self) -> (same: bool) {
        *self == *other
    }
}

impl Diffable for i128 {
    type ChangeSet = i128;

    open spec fn diff_model(old: i128, new: i128) -> Diff<i128> {
        scalar_diff(old, new)
    }

    proof fn lemma_not_changed_iff_same(old: i128, new: i128) {
    }

    fn diff(self, new_value: Self) -> (d: Diff<i128>) {
        if self == new_value {
            Diff::NotChanged
        } else {
            Diff::ChangedTo(new_value)
        }
    }
}

/// A public key, as its 32 bytes.
impl Comparable for [u8; 32] {
    type Model = Seq<u8>;

    open spec fn model(&self) -> Seq<u8> {
        self@
    }

    fn same_as(&self, other: &Self) -> (same: bool) {
        let mut i: usize = 0;
        while i < 32
            invariant
                i <= 32,
                forall|j: int| 0 <= j < i ==> self@[j] == other@[j],
            decreases 32 - i,
        {
            if self[i] != other[i] {
                return false;
            }
            i = i + 1;
        }
        assert(self@ =~= other@);
        true
    }
}

impl Diffable for [u8; 32] {
    type ChangeSet = [u8; 32];

    open spec fn diff_model(old: Seq<u8>, new: Seq<u8>) -> Diff<Seq<u8>> {
        scalar_diff(old, new)
    }

    proof fn lemma_not_changed_iff_same(old: Seq<u8>, new: Seq<u8>) {
    }

    fn diff(self, new_value: Self) -> (d: Diff<[u8; 32]>) {
        if self.same_as(&new_value) {
            Diff::NotChanged
        } else {
            Diff::ChangedTo(new_value)
        }
    }
}

} // verus!
