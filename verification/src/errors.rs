//! Errors of scripts.

use vstd::prelude::*;
use vstd::std_specs::cmp::PartialEqSpec;
use vstd::string::*;

verus! {

/// An error that a script has raised, known by its message.
pub struct DenoRuntimeError(String);

impl DenoRuntimeError {
    /// The message of the error.
    pub closed spec fn message(&self) -> Seq<char> {
        self.0@
    }

    /// What the error looks like in debug output.
    pub open spec fn debug_message(&self) -> Seq<char> {
        "[Js Error] "@ + self.message()
    }

    /// An error with the given message.
    pub fn new(message: String) -> (error: Self)
        ensures
            error.message() == message@,
    {
        DenoRuntimeError(message)
    }

    /// Writes the error as it looks in debug output.
    pub fn debug_text(&self) -> (text: String)
        ensures
            text@ == self.debug_message(),
            text@ == "[Js Error] "@ + self.message(),
    {
        let mut text = "[Js Error] ".to_owned();
        text.append(self.0.as_str());
        text
    }
}

impl PartialEq for DenoRuntimeError {
    /// Errors are equal when their messages are.
    fn eq(&self, other: &Self) -> (equal: bool) {
        self.0 == other.0
    }
}

impl vstd::std_specs::cmp::PartialEqSpecImpl for DenoRuntimeError {
    open spec fn obeys_eq_spec() -> bool {
        true
    }

    open spec fn eq_spec(&self, other: &Self) -> bool {
        self.message() == other.message()
    }
}

/// Two errors are equal exactly when they look the same in debug output.
pub proof fn law_equal_errors_look_the_same(a: DenoRuntimeError, b: DenoRuntimeError)
    ensures
        a.eq_spec(&b) <==> a.debug_message() == b.debug_message(),
{
    let prefix = "[Js Error] "@;
    if a.debug_message() == b.debug_message() {
        assert(a.message() =~= a.debug_message().skip(prefix.len() as int));
        assert(b.message() =~= b.debug_message().skip(prefix.len() as int));
    }
}

/// Errors are equal exactly when their messages are, and debug output is the message with a mark
/// before it.
pub proof fn law_errors_are_their_messages(a: DenoRuntimeError, b: DenoRuntimeError)
    ensures
        a.eq_spec(&b) <==> a.message() == b.message(),
        a.debug_message() == "[Js Error] "@ + a.message(),
{
}

/// Equality of errors is an equivalence.
pub proof fn law_error_equality_is_an_equivalence(
    a: DenoRuntimeError,
    b: DenoRuntimeError,
    c: DenoRuntimeError,
)
    ensures
        a.eq_spec(&a),
        a.eq_spec(&b) ==> b.eq_spec(&a),
        a.eq_spec(&b) && b.eq_spec(&c) ==> a.eq_spec(&c),
{
}

/// The class name that a script sees for an error. `class` is the class that the error is
/// known to belong to; other errors are plain errors.
pub fn get_error_class_name(class: Option<&'static str>) -> (name: &'static str)
    ensures
        name@ == (match class {
            Some(known) => known@,
            None => "Error"@,
        }),
{
    match class {
        Some(known) => known,
        None => "Error",
    }
}

} // verus!
