use crate::check_storage::{observes, storage, CheckStorage};
use crate::diff::{Comparable, Diff, Diffable};
use crate::text::{
    debug_text, missing_change, missing_change_message, unexpected_change,
    unexpected_change_message, wrong_change, wrong_change_message,
};
use core::fmt::Debug;
use core::marker::PhantomData;
use vstd::prelude::*;

verus! {

/// A heterogeneous list: either the empty list `()` or a pair of a head and a
/// tail that is itself such a list.
pub trait HList: Sized {
    /// The number of elements of a list of this type.
    spec fn len() -> nat;

    /// Puts `h` in front of this list.
    fn prepend<H>(self, h: H) -> (list: (H, Self))
        ensures
            list == (h, self),
    {
        (h, self)
    }
}

impl HList for () {
    open spec fn len() -> nat {
        0
    }
}

impl<Head, Tail: HList> HList for (Head, Tail) {
    open spec fn len() -> nat {
        1 + Tail::len()
    }
}

/// Zips two lists of the same length into a list of pairs.
pub trait HZippable<Other>: Sized {
    type Zipped: HList;

    /// The list of pairs of the elements of `self` and `other`, position by
    /// position.
    spec fn zip_spec(self, other: Other) -> Self::Zipped;

    /// Zips this list with another one.
    fn zip(self, other: Other) -> (zipped: Self::Zipped)
        ensures
            zipped == self.zip_spec(other),
    ;
}

impl HZippable<()> for () {
    type Zipped = ();

    open spec fn zip_spec(self, other: ()) -> () {
        ()
    }

    fn zip(self, _other: ()) -> (zipped: ()) {
    }
}

impl<Head1, Tail1, Head2, Tail2> HZippable<(Head2, Tail2)> for (Head1, Tail1) where
    Tail1: HZippable<Tail2>,
 {
    type Zipped = ((Head1, Head2), Tail1::Zipped);

    open spec fn zip_spec(self, other: (Head2, Tail2)) -> Self::Zipped {
        ((self.0, other.0), self.1.zip_spec(other.1))
    }

    fn zip(self, other: (Head2, Tail2)) -> (zipped: Self::Zipped) {
        ((self.0, other.0), self.1.zip(other.1))
    }
}

/// Appends a list to another one.
pub trait Concat<Rhs>: Sized {
    type Output;

    /// The elements of `self`, then those of `rhs`.
    spec fn concat_spec(self, rhs: Rhs) -> Self::Output;

    /// Appends `rhs` to this list.
    fn concat(self, rhs: Rhs) -> (joined: Self::Output)
        ensures
            joined == self.concat_spec(rhs),
    ;
}

impl<Rhs: HList> Concat<Rhs> for () {
    type Output = Rhs;

    open spec fn concat_spec(self, rhs: Rhs) -> Rhs {
        rhs
    }

    fn concat(self, rhs: Rhs) -> (joined: Rhs) {
        rhs
    }
}

impl<Head, Tail, Rhs> Concat<Rhs> for (Head, Tail) where Tail: Concat<Rhs>, Rhs: HList {
    type Output = (Head, <Tail as Concat<Rhs>>::Output);

    open spec fn concat_spec(self, rhs: Rhs) -> Self::Output {
        (self.0, self.1.concat_spec(rhs))
    }

    fn concat(self, rhs: Rhs) -> (joined: Self::Output) {
        (self.0, self.1.concat(rhs))
    }
}

/// Turns a list whose elements all have the type `T` into a sequence.
pub trait HListIntoIterator<T>: Sized {
    /// The elements of this list, in order.
    spec fn items(self) -> Seq<T>;

    /// The elements of this list, in order.
    fn into_iter(self) -> (items: Vec<T>)
        ensures
            items@ == self.items(),
    ;
}

impl<T> HListIntoIterator<T> for () {
    open spec fn items(self) -> Seq<T> {
        Seq::empty()
    }

    fn into_iter(self) -> (items: Vec<T>) {
        Vec::new()
    }
}

impl<Head, Tail: HListIntoIterator<Head>> HListIntoIterator<Head> for (Head, Tail) {
    open spec fn items(self) -> Seq<Head> {
        seq![self.0] + self.1.items()
    }

    fn into_iter(self) -> (items: Vec<Head>) {
        let mut items = self.1.into_iter();
        items.insert(0, self.0);
        items
    }
}

/// Lists are compared element by element: the model of a list is the pair of
/// the model of its head and the model of its tail.
impl<Head: Comparable, Tail: Comparable> Comparable for (Head, Tail) {
    type Model = (Head::Model, Tail::Model);

    open spec fn model(&self) -> (Head::Model, Tail::Model) {
        (self.0.model(), self.1.model())
    }

    fn same_as(&self, other: &Self) -> (same: bool) {
        self.0.same_as(&other.0) && self.1.same_as(&other.1)
    }
}

/// How a storage fared against what was declared for it.
pub enum Verdict {
    /// The storage did what was declared for it.
    Met,
    /// No change was declared, and the storage changed.
    UnexpectedChange,
    /// A change was declared, and the storage did not change.
    MissingChange,
    /// A change was declared, and the storage changed in another way.
    WrongChange,
}

/// The verdict on a storage for which no change was declared.
pub open spec fn unchanged_verdict<C>(found: Diff<C>) -> Verdict {
    match found {
        Diff::NotChanged => Verdict::Met,
        Diff::ChangedTo(_) => Verdict::UnexpectedChange,
    }
}

/// The verdict on a storage for which the change `expected` was declared.
pub open spec fn expected_verdict<C>(found: Diff<C>, expected: C) -> Verdict {
    match found {
        Diff::NotChanged => Verdict::MissingChange,
        Diff::ChangedTo(change) => if change == expected {
            Verdict::Met
        } else {
            Verdict::WrongChange
        },
    }
}

/// Whether `outcome` is what is reported for `verdict`: nothing where the
/// declaration was met, and else the message for the kind of violation.
pub open spec fn outcome_fits(verdict: Verdict, outcome: Option<String>) -> bool {
    match verdict {
        Verdict::Met => outcome is None,
        Verdict::UnexpectedChange => outcome matches Some(message) && exists|found: Seq<char>|
            message@ == #[trigger] unexpected_change_message(found),
        Verdict::MissingChange => outcome matches Some(message) && exists|expected: Seq<char>|
            message@ == #[trigger] missing_change_message(expected),
        Verdict::WrongChange => outcome matches Some(message) && exists|
            expected: Seq<char>,
            found: Seq<char>,
        | message@ == #[trigger] wrong_change_message(expected, found),
    }
}

/// Whether every verdict in `verdicts` is that the declaration was met.
pub open spec fn all_met(verdicts: Seq<Verdict>) -> bool {
    forall|i: int| 0 <= i < verdicts.len() ==> #[trigger] verdicts[i] is Met
}

/// Whether `outcomes` holds, position by position, what is reported for
/// `verdicts`.
pub open spec fn reports(outcomes: Seq<Option<String>>, verdicts: Seq<Verdict>) -> bool {
    &&& outcomes.len() == verdicts.len()
    &&& forall|i: int|
        0 <= i < verdicts.len() ==> outcome_fits(#[trigger] verdicts[i], outcomes[i])
}

/// The list of outcomes of the list of storages `T`.
pub type AssertionOutputOf<T> =
    <<T as PalletStorageHList>::Diff as AssertDiffHList>::AssertionOutput;

/// The list of the changesets that can be declared for the list of storages
/// `T`.
pub type ExpectedChangesOf<T> =
    <<T as PalletStorageHList>::Diff as AssertDiffHList>::ExpectedChanges;

/// A list of diffs, one for each storage of a list of storages.
pub trait AssertDiffHList: HList + Comparable {
    /// The list of the changesets that can be declared for these diffs.
    type ExpectedChanges: HList + Comparable;

    /// The list of outcomes: for each diff nothing, or the message that says
    /// how it violates what was declared.
    type AssertionOutput: HList + HListIntoIterator<Option<String>>;

    /// The verdicts on these diffs where no change was declared.
    spec fn unchanged_verdicts(found: <Self as Comparable>::Model) -> Seq<Verdict>;

    /// The verdicts on these diffs where the changes `expected` were declared.
    spec fn expected_verdicts(
        found: <Self as Comparable>::Model,
        expected: <Self::ExpectedChanges as Comparable>::Model,
    ) -> Seq<Verdict>;

    /// Checks that none of these diffs is a change.
    fn assert_unchanged(self) -> (out: Self::AssertionOutput)
        ensures
            reports(out.items(), Self::unchanged_verdicts(self.model())),
    ;

    /// Checks that each of these diffs is the change declared for it.
    fn assert_changes_are_as_expected(self, expected: Self::ExpectedChanges) -> (out:
        Self::AssertionOutput)
        ensures
            reports(out.items(), Self::expected_verdicts(self.model(), expected.model())),
    ;
}

impl AssertDiffHList for () {
    type ExpectedChanges = ();

    type AssertionOutput = ();

    open spec fn unchanged_verdicts(found: ()) -> Seq<Verdict> {
        Seq::empty()
    }

    open spec fn expected_verdicts(found: (), expected: ()) -> Seq<Verdict> {
        Seq::empty()
    }

    fn assert_unchanged(self) -> (out: ()) {
    }

    fn assert_changes_are_as_expected(self, _expected: ()) -> (out: ()) {
    }
}

impl<Head: Comparable + Debug, Tail: AssertDiffHList> AssertDiffHList for (Diff<Head>, Tail) {
    type ExpectedChanges = (Head, Tail::ExpectedChanges);

    type AssertionOutput = (Option<String>, Tail::AssertionOutput);

    open spec fn unchanged_verdicts(found: (Diff<Head::Model>, Tail::Model)) -> Seq<Verdict> {
        seq![unchanged_verdict(found.0)] + Tail::unchanged_verdicts(found.1)
    }

    open spec fn expected_verdicts(
        found: (Diff<Head::Model>, Tail::Model),
        expected: (Head::Model, <Tail::ExpectedChanges as Comparable>::Model),
    ) -> Seq<Verdict> {
        seq![expected_verdict(found.0, expected.0)] + Tail::expected_verdicts(found.1, expected.1)
    }

    fn assert_unchanged(self) -> (out: Self::AssertionOutput) {
        let output = match &self.0 {
            Diff::NotChanged => None,
            Diff::ChangedTo(change) => {
                let found = debug_text(change);
                Some(unexpected_change(found.as_str()))
            },
        };
        (output, self.1.assert_unchanged())
    }

    fn assert_changes_are_as_expected(self, expected: Self::ExpectedChanges) -> (out:
        Self::AssertionOutput) {
        let output = match &self.0 {
            Diff::NotChanged => {
                let wanted = debug_text(&expected.0);
                Some(missing_change(wanted.as_str()))
            },
            Diff::ChangedTo(change) => {
                if change.same_as(&expected.0) {
                    None
                } else {
                    let wanted = debug_text(&expected.0);
                    let found = debug_text(change);
                    Some(wrong_change(wanted.as_str(), found.as_str()))
                }
            },
        };
        (output, self.1.assert_changes_are_as_expected(expected.1))
    }
}

/// Whether `names` holds, position by position, a name of each of the
/// storages in `storages`.
pub open spec fn named(
    names: Seq<(&'static str, &'static str)>,
    storages: Seq<spec_fn((&'static str, &'static str)) -> bool>,
) -> bool {
    &&& names.len() == storages.len()
    &&& forall|i: int| 0 <= i < names.len() ==> (#[trigger] storages[i])(names[i])
}

/// The sequence of the pairs of the elements of `left` and `right`, position
/// by position.
pub open spec fn paired<A, B>(left: Seq<A>, right: Seq<B>) -> Seq<(A, B)> {
    Seq::new(left.len(), |i: int| (left[i], right[i]))
}

/// A list of storages: the storages that an action is checked against.
pub trait PalletStorageHList: HList {
    /// The list of the names of these storages.
    type NamesOutput: HList + HListIntoIterator<(&'static str, &'static str)> + HZippable<
        AssertionOutputOf<Self>,
        Zipped = Self::Report,
    >;

    /// The list of the values of these storages.
    type CurrentValue: Comparable + DiffableHList<ChangeSet = ExpectedChangesOf<Self>>;

    /// The list of the diffs of these storages.
    type Diff: AssertDiffHList;

    /// The list of the names of these storages, each with the outcome of its
    /// check.
    type Report: HList + HListIntoIterator<((&'static str, &'static str), Option<String>)>;

    /// These storages, in order.
    spec fn storages() -> Seq<spec_fn((&'static str, &'static str)) -> bool>;

    /// The diffs of these storages between the values `before` and `after`,
    /// each storage by itself.
    spec fn diff_models(
        before: <Self::CurrentValue as Comparable>::Model,
        after: <Self::CurrentValue as Comparable>::Model,
    ) -> <Self::Diff as Comparable>::Model;

    /// A list of names and a list of outcomes of these storages have one
    /// element for each storage, and zipped they pair each name with the
    /// outcome at its position.
    proof fn lemma_zip_items(names: Self::NamesOutput, outcomes: AssertionOutputOf<Self>)
        ensures
            names.items().len() == Self::len(),
            outcomes.items().len() == Self::len(),
            names.zip_spec(outcomes).items() == paired(names.items(), outcomes.items()),
    ;

    /// A diff between `before` and values that were observed is a diff
    /// between `before` and what an observation yields.
    proof fn lemma_diff_observed(
        d: Self::Diff,
        before: <Self::CurrentValue as Comparable>::Model,
        seen: Self::CurrentValue,
    )
        requires
            Self::observed(seen),
            d.model() == Self::diff_models(before, seen.model()),
        ensures
            exists|seen: Self::CurrentValue| #[trigger]
                Self::observed(seen) && d.model() == Self::diff_models(before, seen.model()),
    {
    }

    /// Storages whose values are the same before and after are all found
    /// unchanged.
    proof fn lemma_same_values_unchanged(values: <Self::CurrentValue as Comparable>::Model)
        ensures
            all_met(
                <Self::Diff as AssertDiffHList>::unchanged_verdicts(
                    Self::diff_models(values, values),
                ),
            ),
    ;

    /// The names of the storages in this list.
    fn names() -> (names: Self::NamesOutput)
        ensures
            named(names.items(), Self::storages()),
    ;

    /// Whether `values` holds, for each storage in this list and at its
    /// position, what an observation of that storage yields: nothing more is
    /// known of a value that lives outside.
    spec fn observed(values: Self::CurrentValue) -> bool;

    /// Observes the current value of each storage in this list, one after
    /// the other: the values stand in the order of the storages.
    fn current_value() -> (values: Self::CurrentValue)
        ensures
            Self::observed(values),
    ;

    /// Diffs the values `before` with the values `after`, each storage by
    /// itself.
    fn diff_values(before: Self::CurrentValue, after: Self::CurrentValue) -> (d: Self::Diff)
        ensures
            d.model() == Self::diff_models(before.model(), after.model()),
    ;

    /// Observes each storage in this list and diffs the values `before` with
    /// what is observed now.
    fn diff_storage_changes_with_expected_changes(before: Self::CurrentValue) -> (d: Self::Diff)
        ensures
            exists|seen: Self::CurrentValue| #[trigger]
                Self::observed(seen) && d.model() == Self::diff_models(
                    before.model(),
                    seen.model(),
                ),
    ;
}

impl PalletStorageHList for () {
    type NamesOutput = ();

    type CurrentValue = ();

    type Diff = ();

    type Report = ();

    open spec fn storages() -> Seq<spec_fn((&'static str, &'static str)) -> bool> {
        Seq::empty()
    }

    open spec fn diff_models(before: (), after: ()) -> () {
        ()
    }

    proof fn lemma_zip_items(names: (), outcomes: ()) {
    }

    proof fn lemma_same_values_unchanged(values: ()) {
    }

    fn names() -> (names: ()) {
    }

    fn current_value() -> (values: ()) {
    }

    open spec fn observed(values: ()) -> bool {
        true
    }

    fn diff_values(_before: (), _after: ()) -> (d: ()) {
    }

    fn diff_storage_changes_with_expected_changes(_before: ()) -> (d: ()) {
        assert(Self::observed(()));
    }
}

impl<Head: CheckStorage, Tail: PalletStorageHList> PalletStorageHList for (Head, Tail) {
    type NamesOutput = ((&'static str, &'static str), Tail::NamesOutput);

    type CurrentValue = (Head::Value, Tail::CurrentValue);

    type Diff = (Diff<<Head::Value as Diffable>::ChangeSet>, Tail::Diff);

    type Report = (((&'static str, &'static str), Option<String>), Tail::Report);

    open spec fn storages() -> Seq<spec_fn((&'static str, &'static str)) -> bool> {
        seq![storage::<Head>()] + Tail::storages()
    }

    open spec fn diff_models(
        before: (<Head::Value as Comparable>::Model, <Tail::CurrentValue as Comparable>::Model),
        after: (<Head::Value as Comparable>::Model, <Tail::CurrentValue as Comparable>::Model),
    ) -> (
        Diff<<<Head::Value as Diffable>::ChangeSet as Comparable>::Model>,
        <Tail::Diff as Comparable>::Model,
    ) {
        (
            <Head::Value as Diffable>::diff_model(before.0, after.0),
            Tail::diff_models(before.1, after.1),
        )
    }

    proof fn lemma_zip_items(names: Self::NamesOutput, outcomes: AssertionOutputOf<Self>) {
        Tail::lemma_zip_items(names.1, outcomes.1);
    }

    proof fn lemma_same_values_unchanged(
        values: (<Head::Value as Comparable>::Model, <Tail::CurrentValue as Comparable>::Model),
    ) {
        <Head::Value as Diffable>::lemma_not_changed_iff_same(values.0, values.0);
        Tail::lemma_same_values_unchanged(values.1);
        let tail = <Tail::Diff as AssertDiffHList>::unchanged_verdicts(
            Tail::diff_models(values.1, values.1),
        );
        let all = <Self::Diff as AssertDiffHList>::unchanged_verdicts(
            Self::diff_models(values, values),
        );
        assert forall|i: int| 0 <= i < all.len() implies #[trigger] all[i] is Met by {
            if i > 0 {
                assert(all[i] == tail[i - 1]);
            }
        }
    }

    fn names() -> (names: Self::NamesOutput) {
        (Head::name(), Tail::names())
    }

    fn current_value() -> (values: Self::CurrentValue) {
        (Head::current_value(), Tail::current_value())
    }

    open spec fn observed(values: (Head::Value, Tail::CurrentValue)) -> bool {
        observes::<Head>(values.0) && Tail::observed(values.1)
    }

    fn diff_values(before: Self::CurrentValue, after: Self::CurrentValue) -> (d: Self::Diff) {
        (before.0.diff(after.0), Tail::diff_values(before.1, after.1))
    }

    fn diff_storage_changes_with_expected_changes(before: Self::CurrentValue) -> (d: Self::Diff) {
        let ghost before_model = before.model();
        let ghost before_head = before.0.model();
        let ghost before_tail = before.1.model();
        let head = Head::diff_storage_changes_with_expected_changes(before.0);
        let tail = Tail::diff_storage_changes_with_expected_changes(before.1);
        proof {
            let seen_head = choose|seen: Head::Value| #[trigger]
                call_ensures(Head::current_value, (), seen) && head.model() == <
                    Head::Value as Diffable
                >::diff_model(before_head, seen.model());
            let seen_tail = choose|seen: Tail::CurrentValue| #[trigger]
                Tail::observed(seen) && tail.model() == Tail::diff_models(
                    before_tail,
                    seen.model(),
                );
            Self::lemma_diff_observed((head, tail), before_model, (seen_head, seen_tail));
        }
        (head, tail)
    }
}

/// The list of the changesets of a list of diffable values.
pub trait DiffableHList {
    type ChangeSet;
}

impl DiffableHList for () {
    type ChangeSet = ();
}

impl<Head: Diffable, Tail: DiffableHList> DiffableHList for (Head, Tail) {
    type ChangeSet = (<Head as Diffable>::ChangeSet, <Tail as DiffableHList>::ChangeSet);
}

/// An index into a list: the head of the list. It is written as a type
/// only; its one value has no use.
pub enum Here {
    Head,
}

/// An index into a list: the position after the one that `T` stands for.
pub struct There<T>(PhantomData<T>);

/// A position in a list, as a type.
pub trait HIndex {
    /// The position that this type stands for, counted from 0.
    spec fn position() -> nat;
}

impl HIndex for Here {
    open spec fn position() -> nat {
        0
    }
}

impl<T: HIndex> HIndex for There<T> {
    open spec fn position() -> nat {
        1 + T::position()
    }
}

/// Finds the storage `T` in a list of storages, at the position `I`. Where
/// each storage occurs once in the list, `I` can be inferred.
pub trait Find<T: CheckStorage, I: HIndex>: PalletStorageHList {
    /// The list without the storage that was found.
    type Remainder: PalletStorageHList;

    /// The storage `T` stands at the position `I` of this list, and the
    /// remainder holds the other storages of this list in their order.
    proof fn lemma_remainder()
        ensures
            I::position() < Self::storages().len(),
            Self::storages()[I::position() as int] == storage::<T>(),
            <Self::Remainder as PalletStorageHList>::storages() == Self::storages().remove(
                I::position() as int,
            ),
    ;
}

impl<T: CheckStorage, Tail: PalletStorageHList> Find<T, Here> for (T, Tail) {
    type Remainder = Tail;

    proof fn lemma_remainder() {
    }
}

impl<Head: CheckStorage, T: CheckStorage, Tail, TailIndex: HIndex> Find<
    T,
    There<TailIndex>,
> for (Head, Tail) where Tail: Find<T, TailIndex> {
    type Remainder = (Head, <Tail as Find<T, TailIndex>>::Remainder);

    proof fn lemma_remainder() {
        <Tail as Find<T, TailIndex>>::lemma_remainder();
    }
}

/// Taking one storage out of a list of storages leaves exactly the others,
/// in the order in which they stood: where `T` is found in the list `L` at
/// the position `I`, it stands at that position, and the remainder is `L`
/// without that position.
pub proof fn lemma_find_leaves_the_others<L: Find<T, I>, T: CheckStorage, I: HIndex>()
    ensures
        I::position() < L::storages().len(),
        L::storages()[I::position() as int] == storage::<T>(),
        <L::Remainder as PalletStorageHList>::storages() == L::storages().remove(
            I::position() as int,
        ),
        <L::Remainder as PalletStorageHList>::storages().len() + 1 == L::storages().len(),
{
    L::lemma_remainder();
}

} // verus!
