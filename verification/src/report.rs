use crate::hlist::{all_met, outcome_fits, reports, Verdict};
use crate::text::{error_at, error_line};
use vstd::prelude::*;

verus! {

/// What is reported of one storage: its name, and nothing where the storage
/// did what was declared for it, or else the message that says how it did
/// not.
pub type Assertion = ((&'static str, &'static str), Option<String>);

/// The violations that an action was found to commit, with what the action
/// returned.
pub struct ViolationReport<R> {
    /// What the action returned.
    pub result: R,
    /// One line for each storage that violated what was declared for it,
    /// with an empty line between two of them.
    pub report: String,
}

/// The names in `assertions`.
pub open spec fn assertion_names(assertions: Seq<Assertion>) -> Seq<(&'static str, &'static str)> {
    Seq::new(assertions.len(), |i: int| assertions[i].0)
}

/// The outcomes in `assertions`.
pub open spec fn assertion_outcomes(assertions: Seq<Assertion>) -> Seq<Option<String>> {
    Seq::new(assertions.len(), |i: int| assertions[i].1)
}

/// The lines for the storages in `assertions` that violated what was declared
/// for them, in order.
pub open spec fn error_lines(assertions: Seq<Assertion>) -> Seq<Seq<char>>
    decreases assertions.len(),
{
    if assertions.len() == 0 {
        Seq::empty()
    } else {
        let earlier = error_lines(assertions.drop_last());
        let (name, outcome) = assertions.last();
        match outcome {
            Some(message) => earlier.push(error_line((name.0@, name.1@), message@)),
            None => earlier,
        }
    }
}

/// The lines of a report as one text, with an empty line between two of
/// them.
pub open spec fn joined(lines: Seq<Seq<char>>) -> Seq<char>
    decreases lines.len(),
{
    if lines.len() == 0 {
        Seq::empty()
    } else if lines.len() == 1 {
        lines[0]
    } else {
        joined(lines.drop_last()) + "\n\n"@ + lines.last()
    }
}

/// Whether `out` is what becomes of an action that returned `out`'s result
/// and whose storages fared as `assertions` says: the result itself where no
/// storage violated what was declared for it, and else the lines for those
/// that did, joined, together with the result.
pub open spec fn outcome_of<R>(
    assertions: Seq<Assertion>,
    out: Result<R, ViolationReport<R>>,
) -> bool {
    match out {
        Ok(_) => error_lines(assertions).len() == 0,
        Err(violations) => error_lines(assertions).len() > 0 && violations.report@ == joined(
            error_lines(assertions),
        ),
    }
}

/// A report on some storages followed by a report on other storages is a
/// report on all of them.
pub proof fn lemma_reports_concat(
    first: Seq<Option<String>>,
    first_verdicts: Seq<Verdict>,
    second: Seq<Option<String>>,
    second_verdicts: Seq<Verdict>,
)
    requires
        reports(first, first_verdicts),
        reports(second, second_verdicts),
    ensures
        reports(first + second, first_verdicts + second_verdicts),
{
    let all = first + second;
    let verdicts = first_verdicts + second_verdicts;
    assert forall|i: int| 0 <= i < verdicts.len() implies outcome_fits(
        #[trigger] verdicts[i],
        all[i],
    ) by {
        if i >= first.len() {
            assert(all[i] == second[i - first.len()]);
        }
    }
}

/// No storage is reported to have violated what was declared for it exactly
/// when every verdict is that the declaration was met.
pub proof fn lemma_no_errors_iff_all_met(assertions: Seq<Assertion>, verdicts: Seq<Verdict>)
    requires
        reports(assertion_outcomes(assertions), verdicts),
    ensures
        error_lines(assertions).len() == 0 <==> all_met(verdicts),
    decreases assertions.len(),
{
    if assertions.len() > 0 {
        let earlier = assertions.drop_last();
        let earlier_verdicts = verdicts.drop_last();
        let last = assertions.len() - 1;
        assert forall|i: int| 0 <= i < earlier_verdicts.len() implies outcome_fits(
            #[trigger] earlier_verdicts[i],
            assertion_outcomes(earlier)[i],
        ) by {
            assert(outcome_fits(verdicts[i], assertion_outcomes(assertions)[i]));
        }
        lemma_no_errors_iff_all_met(earlier, earlier_verdicts);
        assert(outcome_fits(verdicts[last], assertion_outcomes(assertions)[last]));
        if forall|i: int| 0 <= i < verdicts.len() ==> #[trigger] verdicts[i] is Met {
            assert forall|i: int| 0 <= i < earlier_verdicts.len() implies #[trigger]
                earlier_verdicts[i] is Met by {
                assert(verdicts[i] is Met);
            }
        }
        if error_lines(assertions).len() == 0 {
            assert forall|i: int| 0 <= i < verdicts.len() implies #[trigger]
                verdicts[i] is Met by {
                if i < last {
                    assert(earlier_verdicts[i] is Met);
                }
            }
        }
    }
}

/// The views of the texts in `lines`.
pub open spec fn texts(lines: Seq<String>) -> Seq<Seq<char>> {
    Seq::new(lines.len(), |i: int| lines[i]@)
}

/// The lines for the storages in `assertions` that violated what was declared
/// for them.
pub fn collect_errors(assertions: &Vec<Assertion>) -> (lines: Vec<String>)
    ensures
        texts(lines@) == error_lines(assertions@),
{
    let mut lines: Vec<String> = Vec::new();
    let mut i: usize = 0;
    while i < assertions.len()
        invariant
            i <= assertions.len(),
            texts(lines@) == error_lines(assertions@.take(i as int)),
        decreases assertions.len() - i,
    {
        let ghost lines_before = texts(lines@);
        assert(assertions@.take(i + 1).drop_last() =~= assertions@.take(i as int));
        let (name, outcome) = &assertions[i];
        match outcome {
            Some(message) => {
                let line = error_at(*name, message.as_str());
                let ghost line_text = line@;
                lines.push(line);
                assert(texts(lines@) =~= lines_before.push(line_text));
            },
            None => {},
        }
        i = i + 1;
    }
    assert(assertions@.take(i as int) =~= assertions@);
    lines
}

/// Joins the lines of a report, with an empty line between two of them.
pub fn join_lines(lines: &Vec<String>) -> (text: String)
    ensures
        text@ == joined(texts(lines@)),
{
    let mut text = String::new();
    let mut i: usize = 0;
    while i < lines.len()
        invariant
            i <= lines.len(),
            text@ == joined(texts(lines@).take(i as int)),
        decreases lines.len() - i,
    {
        assert(texts(lines@).take(i + 1).drop_last() =~= texts(lines@).take(i as int));
        if i > 0 {
            text.push_str("\n\n");
        }
        text.push_str(lines[i].as_str());
        i = i + 1;
    }
    assert(texts(lines@).take(i as int) =~= texts(lines@));
    text
}

/// Concludes a check: `result` is what the action returned, and `assertions`
/// what was found of its storages.
pub fn conclude<R>(result: R, assertions: Vec<Assertion>) -> (out: Result<R, ViolationReport<R>>)
    ensures
        outcome_of(assertions@, out),
        match out {
            Ok(r) => r == result,
            Err(violations) => violations.result == result,
        },
{
    let lines = collect_errors(&assertions);
    if lines.len() == 0 {
        Ok(result)
    } else {
        let report = join_lines(&lines);
        Err(ViolationReport { result, report })
    }
}

} // verus!
