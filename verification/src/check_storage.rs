use crate::diff::{Comparable, Diff, Diffable};
use vstd::prelude::*;

verus! {

/// Whether `name` is what the storage `T` gives as its name.
pub open spec fn names<T: CheckStorage>(name: (&'static str, &'static str)) -> bool {
    call_ensures(T::name, (), name)
}

/// The storage `T` as it stands in a list of storages: what tells its names
/// from others.
pub open spec fn storage<T: CheckStorage>() -> spec_fn((&'static str, &'static str)) -> bool {
    |name: (&'static str, &'static str)| names::<T>(name)
}

/// Whether `value` is what an observation of the storage `T` yields.
pub open spec fn observes<T: CheckStorage>(value: T::Value) -> bool {
    call_ensures(T::current_value, (), value)
}

/// A named piece of persistent state whose current value can be observed.
///
/// The type that implements this trait stands for the storage; the value
/// itself lives elsewhere, and may differ from one observation to the next.
pub trait CheckStorage {
    /// What an observation of this storage yields.
    type Value: Diffable;

    /// The two-part name of this storage: its namespace and its own name.
    fn name() -> (&'static str, &'static str);

    /// Observes the current value of this storage.
    fn current_value() -> Self::Value;

    /// Observes this storage and diffs the value `before` with what is
    /// observed now: the result is the diff of `before` with a value that an
    /// observation of this storage yielded.
    fn diff_storage_changes_with_expected_changes(before: Self::Value) -> (d: Diff<
        <Self::Value as Diffable>::ChangeSet,
    >)
        ensures
            exists|seen: Self::Value| #[trigger]
                call_ensures(Self::current_value, (), seen) && d.model() == <
                    Self::Value as Diffable
                >::diff_model(before.model(), seen.model()),
    {
        before.diff(Self::current_value())
    }
}

} // verus!
