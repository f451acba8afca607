use crate::diff::{Comparable, Diff, Diffable};
use vstd::prelude::*;

verus! {

/// Describes the change between two optional values. It only ever stands
/// inside [`Diff::ChangedTo`]: two absent values, and two present values that
/// are the same, are [`Diff::NotChanged`].
#[derive(Debug, PartialEq, Eq)]
pub enum OptionDiff<T: Diffable> {
    /// The value was present before and is present now, and it changed.
    /// Contained is the changeset between the two inner values.
    ValueChanged(T::ChangeSet),
    /// The value was absent before and is present now. Contained is the new
    /// value as it is, since there is nothing to diff it against.
    WasNoneNowSome(T),
    /// The value was present before and is absent now.
    WasSomeNowNone,
}

/// The model of an [`OptionDiff`]: the same three cases over the model `V` of
/// the inner value and the model `C` of its changeset.
pub enum OptionDiffModel<V, C> {
    ValueChanged(C),
    WasNoneNowSome(V),
    WasSomeNowNone,
}

/// The diff of two optional values whose inner diff is `inner`.
pub open spec fn option_diff<V, C>(
    old: Option<V>,
    new: Option<V>,
    inner: spec_fn(V, V) -> Diff<C>,
) -> Diff<OptionDiffModel<V, C>> {
    match (old, new) {
        (None, None) => Diff::NotChanged,
        (None, Some(v)) => Diff::ChangedTo(OptionDiffModel::WasNoneNowSome(v)),
        (Some(_), None) => Diff::ChangedTo(OptionDiffModel::WasSomeNowNone),
        (Some(o), Some(n)) => match inner(o, n) {
            Diff::NotChanged => Diff::NotChanged,
            Diff::ChangedTo(c) => Diff::ChangedTo(OptionDiffModel::ValueChanged(c)),
        },
    }
}

impl<T: Comparable> Comparable for Option<T> {
    type Model = Option<T::Model>;

    open spec fn model(&self) -> Option<T::Model> {
        match self {
            None => None,
            Some(v) => Some(v.model()),
        }
    }

    fn same_as(&self, other: &Self) -> (same: bool) {
        match (self, other) {
            (None, None) => true,
            (Some(a), Some(b)) => a.same_as(b),
            _ => false,
        }
    }
}

impl<T: Diffable> Comparable for OptionDiff<T> {
    type Model = OptionDiffModel<T::Model, <T::ChangeSet as Comparable>::Model>;

    open spec fn model(&self) -> Self::Model {
        match self {
            OptionDiff::ValueChanged(c) => OptionDiffModel::ValueChanged(c.model()),
            OptionDiff::WasNoneNowSome(v) => OptionDiffModel::WasNoneNowSome(v.model()),
            OptionDiff::WasSomeNowNone => OptionDiffModel::WasSomeNowNone,
        }
    }

    fn same_as(&self, other: &Self) -> (same: bool) {
        match (self, other) {
            (OptionDiff::ValueChanged(a), OptionDiff::ValueChanged(b)) => a.same_as(b),
            (OptionDiff::WasNoneNowSome(a), OptionDiff::WasNoneNowSome(b)) => a.same_as(b),
            (OptionDiff::WasSomeNowNone, OptionDiff::WasSomeNowNone) => true,
            _ => false,
        }
    }
}

impl<T: Diffable> Diffable for Option<T> {
    type ChangeSet = OptionDiff<T>;

    open spec fn diff_model(old: Option<T::Model>, new: Option<T::Model>) -> Diff<
        OptionDiffModel<T::Model, <T::ChangeSet as Comparable>::Model>,
    > {
        option_diff(old, new, |o: T::Model, n: T::Model| T::diff_model(o, n))
    }

    proof fn lemma_not_changed_iff_same(old: Option<T::Model>, new: Option<T::Model>) {
        if let (Some(o), Some(n)) = (old, new) {
            T::lemma_not_changed_iff_same(o, n);
        }
    }

    fn diff(self, new_value: Self) -> (d: Diff<OptionDiff<T>>) {
        match (self, new_value) {
            (None, None) => Diff::NotChanged,
            (None, Some(v)) => Diff::ChangedTo(OptionDiff::WasNoneNowSome(v)),
            (Some(_), None) => Diff::ChangedTo(OptionDiff::WasSomeNowNone),
            (Some(old), Some(new)) => match old.diff(new) {
                Diff::NotChanged => Diff::NotChanged,
                Diff::ChangedTo(changed) => Diff::ChangedTo(OptionDiff::ValueChanged(changed)),
            },
        }
    }
}

/// The four cases of diffing optional values: absent with absent is not
/// changed; absent with present is `WasNoneNowSome` of the new value; present
/// with absent is `WasSomeNowNone`; a present value with itself is not
/// changed.
pub proof fn lemma_option_diff_cases<T: Diffable>(x: T::Model)
    ensures
        Option::<T>::diff_model(None, None) == Diff::<
            OptionDiffModel<T::Model, <T::ChangeSet as Comparable>::Model>,
        >::NotChanged,
        Option::<T>::diff_model(None, Some(x)) == Diff::ChangedTo(
            OptionDiffModel::<T::Model, <T::ChangeSet as Comparable>::Model>::WasNoneNowSome(x),
        ),
        Option::<T>::diff_model(Some(x), None) == Diff::ChangedTo(
            OptionDiffModel::<T::Model, <T::ChangeSet as Comparable>::Model>::WasSomeNowNone,
        ),
        Option::<T>::diff_model(Some(x), Some(x)) == Diff::<
            OptionDiffModel<T::Model, <T::ChangeSet as Comparable>::Model>,
        >::NotChanged,
{
    T::lemma_not_changed_iff_same(x, x);
}

} // verus!
