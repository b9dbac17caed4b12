//! What the errors of planning say to a reader.
use crate::action::{FaultModel, PlanError};
use crate::text::{join_from, joined, joined2, joined3};
use vstd::prelude::*;

verus! {

/// What `{:?}` makes of a string: it in double quotes, with what is not
/// printable escaped.
pub uninterp spec fn debug_text(s: Seq<char>) -> Seq<char>;

/// A list of strings as `{:?}` writes it: each of them quoted, with commas between
/// them, in square brackets.
pub open spec fn debug_list(list: Seq<Seq<char>>) -> Seq<char> {
    "["@ + joined(list.map_values(|s: Seq<char>| debug_text(s)), ", "@) + "]"@
}

/// The `Debug` form of a `str`, as `format!` writes it: a function of the
/// characters alone.
#[verifier::external_body]
pub(crate) fn quoted(s: &str) -> (r: String)
    ensures
        r@ == debug_text(s@),
{
    format!("{s:?}")
}

/// A list of strings, each of them quoted, with commas between them, in square
/// brackets.
fn quoted_list(list: &Vec<String>) -> (r: String)
    ensures
        r@ == debug_list(list.deep_view()),
{
    let ghost all = list.deep_view().map_values(|s: Seq<char>| debug_text(s));
    let mut parts: Vec<String> = Vec::new();
    let mut i: usize = 0;
    while i < list.len()
        invariant
            i <= list@.len(),
            all == list.deep_view().map_values(|s: Seq<char>| debug_text(s)),
            parts.deep_view() =~= all.take(i as int),
        decreases list@.len() - i,
    {
        let ghost earlier = parts.deep_view();
        parts.push(quoted(list[i].as_str()));
        assert(parts.deep_view() =~= earlier.push(all[i as int]));
        i = i + 1;
    }
    assert(parts.deep_view().skip(0) =~= all);
    joined3("[", join_from(&parts, 0, ", ").as_str(), "]")
}

/// What an error of planning says.
pub open spec fn fault_text(fault: FaultModel) -> Seq<char> {
    match fault {
        FaultModel::EmptyCommand => "command is empty"@,
        FaultModel::NonAbsoluteCommand(program) => {
            "command[0] must be an absolute path, got "@ + debug_text(program)
        },
        FaultModel::UnknownArg(arg) => "unknown arg "@ + debug_text(arg)
            + " (not declared by this action)"@,
        FaultModel::MissingArg(arg) => "missing required arg "@ + debug_text(arg),
        FaultModel::PatternMismatch { arg, value, pattern } => {
            ("arg "@ + debug_text(arg) + ": value "@) + debug_text(value) + (
            " does not match pattern "@ + debug_text(pattern))
        },
        FaultModel::NotInEnum { arg, value, values } => {
            ("arg "@ + debug_text(arg) + ": value "@) + debug_text(value) + (" is not one of "@
                + debug_list(values))
        },
        FaultModel::BadSha { arg, value } => {
            ("arg "@ + debug_text(arg) + ": "@) + debug_text(value) + " is not a valid git sha"@
        },
        FaultModel::BadPattern { arg, pattern, message } => {
            ("arg "@ + debug_text(arg) + ": invalid regex "@) + debug_text(pattern) + (": "@
                + message)
        },
    }
}

impl PlanError {
    /// What the error says to a reader.
    pub fn message(&self) -> (r: String)
        ensures
            r@ == fault_text(self.deep_view()),
    {
        match self {
            PlanError::EmptyCommand => "command is empty".to_owned(),
            PlanError::NonAbsoluteCommand(program) => joined2(
                "command[0] must be an absolute path, got ",
                quoted(program.as_str()).as_str(),
            ),
            PlanError::UnknownArg(arg) => joined3(
                "unknown arg ",
                quoted(arg.as_str()).as_str(),
                " (not declared by this action)",
            ),
            PlanError::MissingArg(arg) => joined2(
                "missing required arg ",
                quoted(arg.as_str()).as_str(),
            ),
            PlanError::PatternMismatch { arg, value, pattern } => joined3(
                joined3("arg ", quoted(arg.as_str()).as_str(), ": value ").as_str(),
                quoted(value.as_str()).as_str(),
                joined2(
                    " does not match pattern ",
                    quoted(pattern.as_str()).as_str(),
                ).as_str(),
            ),
            PlanError::NotInEnum { arg, value, values } => joined3(
                joined3("arg ", quoted(arg.as_str()).as_str(), ": value ").as_str(),
                quoted(value.as_str()).as_str(),
                joined2(" is not one of ", quoted_list(values).as_str()).as_str(),
            ),
            PlanError::BadSha { arg, value } => joined3(
                joined3("arg ", quoted(arg.as_str()).as_str(), ": ").as_str(),
                quoted(value.as_str()).as_str(),
                " is not a valid git sha",
            ),
            PlanError::BadPattern { arg, pattern, message } => joined3(
                joined3("arg ", quoted(arg.as_str()).as_str(), ": invalid regex ").as_str(),
                quoted(pattern.as_str()).as_str(),
                joined2(": ", message.as_str()).as_str(),
            ),
        }
    }
}

} // verus!
