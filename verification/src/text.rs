use core::fmt::Debug;
use vstd::prelude::*;

verus! {

/// `String::push_str` appends the given text to the end of the string.
pub assume_specification[ String::push_str ](s: &mut String, string: &str)
    ensures
        final(s)@ == old(s)@ + string@,
;

/// Renders a value for a report, by `format!` with the value's pretty `Debug`
/// form. Nothing is claimed of the text.
#[verifier::external_body]
pub(crate) fn debug_text<T: Debug>(value: &T) -> (text: String) {
    format!("{value:#?}")
}

/// The message for a storage that changed to `found` though no change was
/// declared for it.
pub open spec fn unexpected_change_message(found: Seq<char>) -> Seq<char> {
    "Expected no changes, found "@ + found
}

/// The message for a storage that did not change though the change
/// `expected` was declared for it.
pub open spec fn missing_change_message(expected: Seq<char>) -> Seq<char> {
    "expected change of "@ + expected + ", found no changes"@
}

/// The message for a storage that changed to `found` though the change
/// `expected` was declared for it.
pub open spec fn wrong_change_message(expected: Seq<char>, found: Seq<char>) -> Seq<char> {
    "expected change of "@ + expected + ", found "@ + found
}

/// The line of a report that says that the storage `name` violated what was
/// declared for it, as `message` describes.
pub open spec fn error_line(name: (Seq<char>, Seq<char>), message: Seq<char>) -> Seq<char> {
    "ERROR at storage "@ + name.0 + "/"@ + name.1 + ": "@ + message
}

/// Builds the message for an undeclared change to `found`.
pub fn unexpected_change(found: &str) -> (message: String)
    ensures
        message@ == unexpected_change_message(found@),
{
    let mut message = "Expected no changes, found ".to_owned();
    message.push_str(found);
    message
}

/// Builds the message for a declared change `expected` that did not happen.
pub fn missing_change(expected: &str) -> (message: String)
    ensures
        message@ == missing_change_message(expected@),
{
    let mut message = "expected change of ".to_owned();
    message.push_str(expected);
    message.push_str(", found no changes");
    message
}

/// Builds the message for a change to `found` where `expected` was declared.
pub fn wrong_change(expected: &str, found: &str) -> (message: String)
    ensures
        message@ == wrong_change_message(expected@, found@),
{
    let mut message = "expected change of ".to_owned();
    message.push_str(expected);
    message.push_str(", found ");
    message.push_str(found);
    message
}

/// Builds the line of a report for the storage `name` and its `message`.
pub fn error_at(name: (&str, &str), message: &str) -> (line: String)
    ensures
        line@ == error_line((name.0@, name.1@), message@),
{
    let mut line = "ERROR at storage ".to_owned();
    line.push_str(name.0);
    line.push_str("/");
    line.push_str(name.1);
    line.push_str(": ");
    line.push_str(message);
    line
}

} // verus!
