//! The errors of the storage core, and the messages that report them.

use crate::decimal::decimal;
use crate::decimal::i64_to_text;
use vstd::prelude::*;

verus! {

/// What went wrong, with a message for the reader.
#[derive(Debug)]
pub enum LoreCoreError {
    /// The storage location cannot be resolved or opened.
    FileError(String),
    /// Input from outside is malformed: a null pointer, bytes that are no
    /// text, a number that does not parse.
    InputError(String),
    /// The relational engine failed or refused: no connection, a violated
    /// constraint, no row or more than one row where exactly one is due.
    SqlError(String),
}

/// `text` as the standard library formats a string slice for debugging: in
/// double quotes, with quotes, backslashes and what does not print escaped.
pub uninterp spec fn debug_quoted(text: Seq<char>) -> Seq<char>;

/// `format!("{:?}", text)` on a string slice, which is `<str as Debug>::fmt`.
/// The result is a function of the characters alone; the contract gives it
/// the name `debug_quoted` and says nothing of what it holds.
#[verifier::external_body]
pub(crate) fn quoted(text: &str) -> (quoted: String)
    ensures
        quoted@ == debug_quoted(text@),
{
    format!("{:?}", text)
}

impl LoreCoreError {
    /// The message that the error carries.
    pub open spec fn message(&self) -> Seq<char> {
        match self {
            LoreCoreError::FileError(message) => message@,
            LoreCoreError::InputError(message) => message@,
            LoreCoreError::SqlError(message) => message@,
        }
    }

    /// The name of the error's kind, as it stands in the report.
    pub open spec fn kind_name(&self) -> Seq<char> {
        match self {
            LoreCoreError::FileError(_) => "FileError"@,
            LoreCoreError::InputError(_) => "InputError"@,
            LoreCoreError::SqlError(_) => "SqlError"@,
        }
    }

    /// The report of the error: the kind's name, then the message in
    /// parentheses, quoted as for debugging.
    pub open spec fn report(&self) -> Seq<char> {
        self.kind_name() + "("@ + debug_quoted(self.message()) + ")"@
    }

    /// Whether `self` and `other` are of one kind and carry the same message.
    pub open spec fn same_as(&self, other: &LoreCoreError) -> bool {
        self.kind_name() == other.kind_name() && self.message() == other.message()
    }

    /// The report of the error. It is never empty, so it cannot be mistaken
    /// for the empty text that reports success.
    pub fn to_string(&self) -> (report: String)
        ensures
            report@ == self.report(),
            report@.len() > 0,
    {
        let mut report = match self {
            LoreCoreError::FileError(_) => String::from_str("FileError"),
            LoreCoreError::InputError(_) => String::from_str("InputError"),
            LoreCoreError::SqlError(_) => String::from_str("SqlError"),
        };
        let message = match self {
            LoreCoreError::FileError(message) => message,
            LoreCoreError::InputError(message) => message,
            LoreCoreError::SqlError(message) => message,
        };
        report.append("(");
        let quoted_message = quoted(message.as_str());
        report.append(quoted_message.as_str());
        report.append(")");
        proof {
            reveal_strlit("(");
        }
        report
    }
}

impl Clone for LoreCoreError {
    fn clone(&self) -> (copy: Self)
        ensures
            copy.same_as(self),
    {
        match self {
            LoreCoreError::FileError(message) => LoreCoreError::FileError(message.clone()),
            LoreCoreError::InputError(message) => LoreCoreError::InputError(message.clone()),
            LoreCoreError::SqlError(message) => LoreCoreError::SqlError(message.clone()),
        }
    }
}

/// One parameter of a failed operation, as the report shows it: its name,
/// and its value formatted for debugging.
#[derive(Debug, PartialEq, Eq)]
pub struct Parameter {
    pub name: String,
    pub value: String,
}

/// A parameter as plain values.
pub ghost struct ParameterView {
    pub name: Seq<char>,
    pub value: Seq<char>,
}

impl View for Parameter {
    type V = ParameterView;

    open spec fn view(&self) -> ParameterView {
        ParameterView { name: self.name@, value: self.value@ }
    }
}

impl Parameter {
    /// The parameter `name` with the value that `value` renders.
    pub fn new(name: &str, value: String) -> (parameter: Parameter)
        ensures
            parameter@ == (ParameterView { name: name@, value: value@ }),
    {
        Parameter { name: name.to_owned(), value }
    }

    /// The parameter `name` with the text `value`, quoted as for debugging.
    pub fn text(name: &str, value: &str) -> (parameter: Parameter)
        ensures
            parameter@ == (ParameterView { name: name@, value: debug_quoted(value@) }),
    {
        Parameter { name: name.to_owned(), value: quoted(value) }
    }

    /// The parameter `name` with the number `value`, in decimal.
    pub fn number(name: &str, value: i64) -> (parameter: Parameter)
        ensures
            parameter@ == (ParameterView { name: name@, value: decimal(value as int) }),
    {
        Parameter { name: name.to_owned(), value: i64_to_text(value) }
    }
}

impl Clone for Parameter {
    fn clone(&self) -> (copy: Self)
        ensures
            copy@ == self@,
    {
        Parameter { name: self.name.clone(), value: self.value.clone() }
    }
}

/// The parameters of a failed operation as the report lists them: each as
/// its name, `=`, and its value in single quotes; before the first the words
/// ` for parameters `, between two a comma and a space.
pub open spec fn listed_parameters(params: Seq<ParameterView>) -> Seq<char>
    decreases params.len(),
{
    if params.len() == 0 {
        Seq::empty()
    } else {
        listed_parameters(params.drop_last()) + (if params.len() == 1 {
            " for parameters "@
        } else {
            ", "@
        }) + params.last().name + "='"@ + params.last().value + "'"@
    }
}

/// The message of the failure of `action` under `params`, for the reason
/// `reason`.
pub open spec fn failure(
    action: Seq<char>,
    params: Seq<ParameterView>,
    reason: Seq<char>,
) -> Seq<char> {
    action + listed_parameters(params) + " failed: "@ + reason
}

/// The message of a failed load of `loadee` that the engine reported as `err`.
pub open spec fn loading_failure(
    loadee: Seq<char>,
    params: Seq<ParameterView>,
    err: Seq<char>,
) -> Seq<char> {
    failure("Loading "@ + loadee + " "@, params, err)
}

/// The views of `params`, in order.
pub open spec fn parameter_views(params: Seq<Parameter>) -> Seq<ParameterView> {
    params.map_values(|parameter: Parameter| parameter@)
}

/// The error for `action` under `params`, which failed for the reason
/// `reason`: an error of the engine's kind, with the message [`failure`].
pub fn sql_error(action: &str, params: &Vec<Parameter>, reason: &str) -> (error: LoreCoreError)
    ensures
        error is SqlError,
        error.message() == failure(action@, parameter_views(params@), reason@),
{
    let mut message = String::from_str(action);
    let ghost listed_all = parameter_views(params@);
    let mut i: usize = 0;
    assert(listed_all.take(0) =~= Seq::<ParameterView>::empty());
    while i < params.len()
        invariant
            i <= params.len(),
            listed_all == parameter_views(params@),
            message@ == action@ + listed_parameters(listed_all.take(i as int)),
        decreases params.len() - i,
    {
        let ghost listed = listed_all.take(i + 1);
        assert(listed.drop_last() =~= listed_all.take(i as int));
        assert(listed.last() == params@[i as int]@);
        if i == 0 {
            message.append(" for parameters ");
        } else {
            message.append(", ");
        }
        message.append(params[i].name.as_str());
        message.append("='");
        message.append(params[i].value.as_str());
        message.append("'");
        i += 1;
        assert(message@ =~= action@ + listed_parameters(listed));
    }
    assert(listed_all.take(params.len() as int) =~= listed_all);
    message.append(" failed: ");
    message.append(reason);
    assert(message@ =~= failure(action@, listed_all, reason@));
    LoreCoreError::SqlError(message)
}

/// The error for a load of `loadee` under the search `params` that the engine
/// failed with `err`.
pub fn sql_loading_error(loadee: &str, params: &Vec<Parameter>, err: &str) -> (error:
    LoreCoreError)
    ensures
        error is SqlError,
        error.message() == loading_failure(loadee@, parameter_views(params@), err@),
{
    let mut action = String::from_str("Loading ");
    action.append(loadee);
    action.append(" ");
    sql_error(action.as_str(), params, err)
}

} // verus!
