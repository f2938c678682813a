//! The diagnostic text of an adapter.

use vstd::prelude::*;
use vstd::string::StringExecFns;

verus! {

/// The text of a flag, as `{:?}` prints a `bool`.
pub open spec fn flag_text(done: bool) -> Seq<char> {
    if done {
        "true"@
    } else {
        "false"@
    }
}

/// The diagnostic text of an adapter whose source prints as `source` and whose
/// flag is `done`: the two fields `iter` and `flag` under the type's name. The
/// predicate is not shown.
pub open spec fn description(source: Seq<char>, done: bool) -> Seq<char> {
    "TakeUntil { iter: "@ + source + ", flag: "@ + flag_text(done) + " }"@
}

/// Is `text` the diagnostic text of an adapter with flag `done`, for some
/// text of its source?
pub open spec fn describes(text: Seq<char>, done: bool) -> bool {
    exists|source: Seq<char>| text == #[trigger] description(source, done)
}

/// Builds the diagnostic text from the text of the source and the flag.
pub fn describe(source: &str, done: bool) -> (text: String)
    ensures
        text@ == description(source@, done),
{
    let mut text = String::from_str("TakeUntil { iter: ");
    text.append(source);
    text.append(", flag: ");
    if done {
        text.append("true");
    } else {
        text.append("false");
    }
    text.append(" }");
    text
}

/// Builds the diagnostic text for either outcome of printing the source:
/// there is none when the source could not be printed, and otherwise it is
/// the description around the source's text.
pub fn describe_outcome(source: Option<String>, done: bool) -> (text: Option<String>)
    ensures
        source is None ==> text is None,
        source matches Some(printed) ==> text matches Some(t) && t@ == description(
            printed@,
            done,
        ),
{
    match source {
        Some(printed) => Some(describe(printed.as_str(), done)),
        None => None,
    }
}

} // verus!
