use core::fmt::Debug;
use vstd::prelude::*;

pub use crate::map::{MapValueDiff, MapValueDiffModel};
pub use crate::option::{OptionDiff, OptionDiffModel};

verus! {

/// A value with a mathematical model, and an executable test of whether two
/// values have the same model.
///
/// Every contract of this library speaks of values through their models: a
/// scalar is its own model, an optional value is an `Option` of the inner
/// model, and a map is a `Map` from its keys to the models of its values.
pub trait Comparable {
    /// The mathematical value that a value of this type stands for.
    type Model;

    /// What this value is, mathematically.
    spec fn model(&self) -> Self::Model;

    /// Value equality: `true` exactly when both values have the same model.
    fn same_as(&self, other: &Self) -> (same: bool)
        ensures
            same == (self.model() == other.model()),
    ;
}

/// The outcome of comparing an old value with a new one.
///
/// This is a "changed or not changed" outcome: `ChangedTo` carries the
/// changeset that describes the new value. For plain scalars the changeset is
/// the new value itself, so diffing `15` with `10` gives `ChangedTo(10)`, not
/// a difference of `-5`.
#[derive(Debug, PartialEq, Eq)]
pub enum Diff<T> {
    /// The value was not changed.
    NotChanged,
    /// The value was changed; the changeset describes what it became.
    ChangedTo(T),
}

impl<T> Default for Diff<T> {
    fn default() -> (d: Self)
        ensures
            d is NotChanged,
    {
        Diff::NotChanged
    }
}

impl<T: Comparable> Comparable for Diff<T> {
    type Model = Diff<T::Model>;

    open spec fn model(&self) -> Diff<T::Model> {
        match self {
            Diff::NotChanged => Diff::NotChanged,
            Diff::ChangedTo(c) => Diff::ChangedTo(c.model()),
        }
    }

    fn same_as(&self, other: &Self) -> (same: bool) {
        match (self, other) {
            (Diff::NotChanged, Diff::NotChanged) => true,
            (Diff::ChangedTo(a), Diff::ChangedTo(b)) => a.same_as(b),
            _ => false,
        }
    }
}

/// A value that can be compared with a newer value of the same type.
pub trait Diffable: Comparable + Sized + Debug {
    /// What describes a change of a value of this type. Usually the new value
    /// itself; optional values and maps have richer changesets.
    type ChangeSet: Comparable + Debug;

    /// The outcome of diffing `old` with `new`, over models.
    spec fn diff_model(old: Self::Model, new: Self::Model) -> Diff<
        <Self::ChangeSet as Comparable>::Model,
    >;

    /// Nothing is reported as changed exactly when old and new value are the
    /// same.
    proof fn lemma_not_changed_iff_same(old: Self::Model, new: Self::Model)
        ensures
            Self::diff_model(old, new) is NotChanged <==> old == new,
    ;

    /// Diffs the old value (`self`) with `new_value`.
    fn diff(self, new_value: Self) -> (d: Diff<Self::ChangeSet>)
        ensures
            d.model() == Self::diff_model(self.model(), new_value.model()),
    ;
}

} // verus!
