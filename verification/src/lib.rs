//! Checks of what an action changes in a known set of storages.
//!
//! A test declares, before it runs an action, which storages the action is
//! to change and how. The action is then run between two observations of all
//! storages: each declared storage has to show the declared change, and every
//! other storage has to be unchanged. All violations are reported together.
//!
//! The set of storages is a list of types ([`hlist::PalletStorageHList`]).
//! Declaring a change for a storage takes it out of the list of unchecked
//! storages, so that a storage outside the set, or a second declaration for
//! one storage, does not compile.
use core::marker::PhantomData;
use vstd::prelude::*;

pub mod bounded;
pub mod check_storage;
pub mod diff;
pub mod hlist;
pub mod key;
pub mod map;
pub mod option;
pub mod report;
pub mod scalar;
pub mod snapshot;
pub mod text;

pub use crate::check_storage::CheckStorage;
pub use crate::diff::{Comparable, Diff, Diffable};
use crate::hlist::{
    named, reports, AssertDiffHList, ExpectedChangesOf, Find, HIndex, HList, HListIntoIterator,
    HZippable, PalletStorageHList,
};
use crate::report::{
    assertion_names, assertion_outcomes, conclude, error_lines, lemma_no_errors_iff_all_met,
    lemma_reports_concat, outcome_of, Assertion, ViolationReport,
};

verus! {

/// Whether `assertions` is a report on the unchecked storages `U` and then the
/// checked storages `C`, for values that observations of the storages yielded
/// before and after: it names each storage in turn, and holds for each what is
/// reported of it, where an unchecked storage is to be unchanged and a checked
/// storage is to have the change that `expected` declares for it.
pub open spec fn reports_on<U: PalletStorageHList, C: PalletStorageHList>(
    assertions: Seq<Assertion>,
    expected: <ExpectedChangesOf<C> as Comparable>::Model,
) -> bool {
    exists|
        unchecked_before: U::CurrentValue,
        unchecked_after: U::CurrentValue,
        checked_before: C::CurrentValue,
        checked_after: C::CurrentValue,
    | #[trigger]
        reports_on_observed::<U, C>(
            assertions,
            unchecked_before,
            unchecked_after,
            checked_before,
            checked_after,
            expected,
        )
}

/// Whether the values given are what observations of the storages `U` and `C`
/// yielded, and `assertions` is the report on the storages going from the
/// values before to the values after.
pub open spec fn reports_on_observed<U: PalletStorageHList, C: PalletStorageHList>(
    assertions: Seq<Assertion>,
    unchecked_before: U::CurrentValue,
    unchecked_after: U::CurrentValue,
    checked_before: C::CurrentValue,
    checked_after: C::CurrentValue,
    expected: <ExpectedChangesOf<C> as Comparable>::Model,
) -> bool {
    &&& U::observed(unchecked_before)
    &&& U::observed(unchecked_after)
    &&& C::observed(checked_before)
    &&& C::observed(checked_after)
    &&& reports_on_values::<U, C>(
        assertions,
        unchecked_before.model(),
        unchecked_after.model(),
        checked_before.model(),
        checked_after.model(),
        expected,
    )
}

/// Whether `assertions` is the report on the unchecked storages `U`, which
/// went from the values `unchecked_before` to `unchecked_after`, and then the
/// checked storages `C`, which went from `checked_before` to `checked_after`
/// and for which the changes `expected` were declared.
pub open spec fn reports_on_values<U: PalletStorageHList, C: PalletStorageHList>(
    assertions: Seq<Assertion>,
    unchecked_before: <U::CurrentValue as Comparable>::Model,
    unchecked_after: <U::CurrentValue as Comparable>::Model,
    checked_before: <C::CurrentValue as Comparable>::Model,
    checked_after: <C::CurrentValue as Comparable>::Model,
    expected: <ExpectedChangesOf<C> as Comparable>::Model,
) -> bool {
    reports_on_diffs::<U, C>(
        assertions,
        U::diff_models(unchecked_before, unchecked_after),
        C::diff_models(checked_before, checked_after),
        expected,
    )
}

/// Whether `assertions` is the report on the unchecked storages `U`, whose
/// diffs are `unchecked`, and then the checked storages `C`, whose diffs are
/// `checked` and for which the changes `expected` were declared.
pub open spec fn reports_on_diffs<U: PalletStorageHList, C: PalletStorageHList>(
    assertions: Seq<Assertion>,
    unchecked: <U::Diff as Comparable>::Model,
    checked: <C::Diff as Comparable>::Model,
    expected: <ExpectedChangesOf<C> as Comparable>::Model,
) -> bool {
    &&& named(assertion_names(assertions), U::storages() + C::storages())
    &&& reports(
        assertion_outcomes(assertions),
        <U::Diff as AssertDiffHList>::unchanged_verdicts(unchecked)
            + <C::Diff as AssertDiffHList>::expected_verdicts(checked, expected),
    )
}

/// Collects the checks of storages: the storages in `UncheckedStorages` are
/// to stay as they are, and for each storage in `CheckedStorages` a change has
/// been declared.
pub struct StorageChecker<
    UncheckedStorages: PalletStorageHList,
    CheckedStorages: PalletStorageHList,
> {
    expected_changes: ExpectedChangesOf<CheckedStorages>,
    _marker: PhantomData<UncheckedStorages>,
}

impl<PalletStorages: PalletStorageHList> StorageChecker<PalletStorages, ()> {
    /// A checker for the storages `PalletStorages`, with all of them
    /// unchecked.
    pub fn new() -> (checker: Self)
        ensures
            checker.expected_changes() == (),
    {
        StorageChecker { expected_changes: (), _marker: PhantomData }
    }
}

impl<UncheckedStorages: PalletStorageHList, CheckedStorages: PalletStorageHList> StorageChecker<
    UncheckedStorages,
    CheckedStorages,
> {
    /// The changes that have been declared, one for each checked storage.
    pub closed spec fn expected_changes(&self) -> ExpectedChangesOf<CheckedStorages> {
        self.expected_changes
    }

    /// Adds a check for the storage `T`, which moves from the unchecked to
    /// the checked storages: `t_value` is the change declared for it.
    pub fn check_storage<T: CheckStorage, Index: HIndex>(
        self,
        t_value: <T::Value as Diffable>::ChangeSet,
    ) -> (next: StorageChecker<
        <UncheckedStorages as Find<T, Index>>::Remainder,
        (T, CheckedStorages),
    >) where UncheckedStorages: Find<T, Index>
        ensures
            next.expected_changes() == (t_value, self.expected_changes()),
    {
        StorageChecker {
            expected_changes: self.expected_changes.prepend(t_value),
            _marker: PhantomData,
        }
    }

    /// Reports on all storages, given the diffs that were found: the
    /// unchecked storages first, each of which is to be unchanged, then the
    /// checked storages, each of which is to have the change declared for it.
    pub fn assertions_for(
        self,
        unchecked_diff: UncheckedStorages::Diff,
        checked_diff: CheckedStorages::Diff,
    ) -> (assertions: Vec<Assertion>)
        ensures
            reports_on_diffs::<UncheckedStorages, CheckedStorages>(
                assertions@,
                unchecked_diff.model(),
                checked_diff.model(),
                self.expected_changes().model(),
            ),
    {
        let ghost unchecked_verdicts =
            <UncheckedStorages::Diff as AssertDiffHList>::unchanged_verdicts(
            unchecked_diff.model(),
        );
        let ghost checked_verdicts = <CheckedStorages::Diff as AssertDiffHList>::expected_verdicts(
            checked_diff.model(),
            self.expected_changes.model(),
        );
        let checked_names = CheckedStorages::names();
        let checked_outcomes = checked_diff.assert_changes_are_as_expected(self.expected_changes);
        proof {
            CheckedStorages::lemma_zip_items(checked_names, checked_outcomes);
        }
        let mut checked_assertions = checked_names.zip(checked_outcomes).into_iter();
        let unchecked_names = UncheckedStorages::names();
        let unchecked_outcomes = unchecked_diff.assert_unchanged();
        proof {
            UncheckedStorages::lemma_zip_items(unchecked_names, unchecked_outcomes);
        }
        let mut assertions = unchecked_names.zip(unchecked_outcomes).into_iter();
        assertions.append(&mut checked_assertions);
        proof {
            lemma_reports_concat(
                unchecked_outcomes.items(),
                unchecked_verdicts,
                checked_outcomes.items(),
                checked_verdicts,
            );
        }
        assertions
    }

    /// Reports on all storages, given their values before and after an
    /// action.
    pub fn assertions_between(
        self,
        unchecked_before: UncheckedStorages::CurrentValue,
        unchecked_after: UncheckedStorages::CurrentValue,
        checked_before: CheckedStorages::CurrentValue,
        checked_after: CheckedStorages::CurrentValue,
    ) -> (assertions: Vec<Assertion>)
        ensures
            reports_on_values::<UncheckedStorages, CheckedStorages>(
                assertions@,
                unchecked_before.model(),
                unchecked_after.model(),
                checked_before.model(),
                checked_after.model(),
                self.expected_changes().model(),
            ),
    {
        let checked_diff = CheckedStorages::diff_values(checked_before, checked_after);
        let unchecked_diff = UncheckedStorages::diff_values(unchecked_before, unchecked_after);
        self.assertions_for(unchecked_diff, checked_diff)
    }

    /// Observes all storages, runs the action `f`, observes the storages
    /// again, and reports on what changed between the values that the
    /// observations yielded.
    pub fn check<F: FnOnce() -> R, R>(self, f: F) -> (out: (R, Vec<Assertion>))
        requires
            f.requires(()),
        ensures
            f.ensures((), out.0),
            reports_on::<UncheckedStorages, CheckedStorages>(
                out.1@,
                self.expected_changes().model(),
            ),
    {
        let unchecked_value_before_f = UncheckedStorages::current_value();
        let checked_value_before_f = CheckedStorages::current_value();
        let ghost unchecked_before = unchecked_value_before_f;
        let ghost checked_before = checked_value_before_f;
        let r = f();
        let found_checked_diff = CheckedStorages::diff_storage_changes_with_expected_changes(
            checked_value_before_f,
        );
        let unchecked_diff = UncheckedStorages::diff_storage_changes_with_expected_changes(
            unchecked_value_before_f,
        );
        let ghost expected = self.expected_changes.model();
        let ghost found_checked = found_checked_diff.model();
        let ghost found_unchecked = unchecked_diff.model();
        let assertions = self.assertions_for(unchecked_diff, found_checked_diff);
        proof {
            let checked_after = choose|seen: CheckedStorages::CurrentValue| #[trigger]
                CheckedStorages::observed(seen) && found_checked == CheckedStorages::diff_models(
                    checked_before.model(),
                    seen.model(),
                );
            let unchecked_after = choose|seen: UncheckedStorages::CurrentValue| #[trigger]
                UncheckedStorages::observed(seen) && found_unchecked
                    == UncheckedStorages::diff_models(unchecked_before.model(), seen.model());
            assert(reports_on_observed::<UncheckedStorages, CheckedStorages>(
                assertions@,
                unchecked_before,
                unchecked_after,
                checked_before,
                checked_after,
                expected,
            ));
        }
        (r, assertions)
    }
}

/// An action together with the checks of storages that it is to meet.
#[verifier::reject_recursive_types(R)]
pub struct AssertableDiffableStorageAction<
    UncheckedStorages: PalletStorageHList,
    CheckedStorages: PalletStorageHList,
    F: FnOnce() -> R,
    R,
> {
    f: F,
    storage_checker: StorageChecker<UncheckedStorages, CheckedStorages>,
}

/// Wraps the action `f`, to be checked against the storages
/// `UncheckedStorages`. Until checks are added, each of them is to stay
/// unchanged.
pub fn do_action<UncheckedStorages: PalletStorageHList, F: FnOnce() -> R, R>(f: F) -> (action:
    AssertableDiffableStorageAction<UncheckedStorages, (), F, R>)
    ensures
        action.action() == f,
        action.expected_changes() == (),
{
    AssertableDiffableStorageAction { f, storage_checker: StorageChecker::new() }
}

impl<
    UncheckedStorages: PalletStorageHList,
    CheckedStorages: PalletStorageHList,
    F: FnOnce() -> R,
    R,
> AssertableDiffableStorageAction<UncheckedStorages, CheckedStorages, F, R> {
    /// The action that is wrapped.
    pub closed spec fn action(&self) -> F {
        self.f
    }

    /// The changes that have been declared, one for each checked storage.
    pub closed spec fn expected_changes(&self) -> ExpectedChangesOf<CheckedStorages> {
        self.storage_checker.expected_changes()
    }

    /// Declares that the action changes the storage `T` as `t_value` says.
    /// The storage moves from the unchecked to the checked storages, so a
    /// storage can be declared once only.
    #[must_use]
    pub fn check_storage<T: CheckStorage, Index: HIndex>(
        self,
        t_value: <T::Value as Diffable>::ChangeSet,
    ) -> (next: AssertableDiffableStorageAction<
        <UncheckedStorages as Find<T, Index>>::Remainder,
        (T, CheckedStorages),
        F,
        R,
    >) where UncheckedStorages: Find<T, Index>
        ensures
            next.action() == self.action(),
            next.expected_changes() == (t_value, self.expected_changes()),
    {
        AssertableDiffableStorageAction {
            f: self.f,
            storage_checker: self.storage_checker.check_storage(t_value),
        }
    }

    /// Runs the action and checks the storages: each storage that was not
    /// declared is to be unchanged, and each declared storage is to have the
    /// change declared for it. Returns what the action returned where every
    /// storage did so, and else all violations together with what the action
    /// returned.
    pub fn assert_storage_changes(self) -> (out: Result<R, ViolationReport<R>>)
        requires
            self.action().requires(()),
        ensures
            exists|assertions: Seq<Assertion>|
                #![trigger outcome_of(assertions, out)]
                reports_on::<UncheckedStorages, CheckedStorages>(
                    assertions,
                    self.expected_changes().model(),
                ) && outcome_of(assertions, out),
            match out {
                Ok(r) => self.action().ensures((), r),
                Err(violations) => self.action().ensures((), violations.result),
            },
    {
        let (r, assertions) = self.storage_checker.check(self.f);
        conclude(r, assertions)
    }
}

/// Where no change was declared and no storage changed, nothing is reported
/// and what the action returned is handed on: a report on the storages `U`,
/// all of them unchecked and with the same values before and after, holds no
/// violation, and the outcome that belongs to it is a success.
pub proof fn lemma_nothing_changed_nothing_reported<U: PalletStorageHList, R>(
    assertions: Seq<Assertion>,
    values: <U::CurrentValue as Comparable>::Model,
    out: Result<R, ViolationReport<R>>,
)
    requires
        reports_on_values::<U, ()>(assertions, values, values, (), (), ()),
        outcome_of(assertions, out),
    ensures
        error_lines(assertions).len() == 0,
        out is Ok,
{
    let verdicts = <U::Diff as AssertDiffHList>::unchanged_verdicts(U::diff_models(values, values));
    U::lemma_same_values_unchanged(values);
    assert(verdicts + <() as AssertDiffHList>::expected_verdicts((), ()) =~= verdicts);
    lemma_no_errors_iff_all_met(assertions, verdicts);
}

} // verus!
