//! Small verified operations on text.

use vstd::prelude::*;
use vstd::string::*;

verus! {

/// Tests whether `text` begins with `prefix`.
pub fn starts_with(text: &str, prefix: &str) -> (found: bool)
    ensures
        found == prefix@.is_prefix_of(text@),
{
    let text_len: usize = text.unicode_len();
    let prefix_len: usize = prefix.unicode_len();
    if prefix_len > text_len {
        return false;
    }
    let mut i: usize = 0;
    while i < prefix_len
        invariant
            i <= prefix_len <= text_len,
            prefix_len == prefix@.len(),
            text_len == text@.len(),
            forall|j: int| 0 <= j < i ==> #[trigger] prefix@[j] == text@[j],
        decreases prefix_len - i,
    {
        let wanted = prefix.get_char(i);
        let seen = text.get_char(i);
        if wanted != seen {
            assert(prefix@[i as int] != text@.subrange(0, prefix_len as int)[i as int]);
            return false;
        }
        i = i + 1;
    }
    assert(prefix@ =~= text@.subrange(0, prefix_len as int));
    true
}

/// The three texts one after the other.
pub fn concat3(first: &str, second: &str, third: &str) -> (joined: String)
    ensures
        joined@ == first@ + second@ + third@,
{
    let mut joined = first.to_owned();
    joined.append(second);
    joined.append(third);
    joined
}

/// How a truth value is written in a script.
pub open spec fn bool_literal(value: bool) -> Seq<char> {
    if value {
        "true"@
    } else {
        "false"@
    }
}

/// Writes a truth value as a script literal.
pub fn bool_text(value: bool) -> (literal: &'static str)
    ensures
        literal@ == bool_literal(value),
        literal@ == (if value { "true"@ } else { "false"@ }),
{
    if value {
        "true"
    } else {
        "false"
    }
}

/// The texts held by a sequence of strings.
pub open spec fn texts(items: Seq<String>) -> Seq<Seq<char>> {
    Seq::new(items.len(), |i: int| items[i]@)
}

/// The text held by an optional string.
pub open spec fn optional_text(item: Option<String>) -> Option<Seq<char>> {
    match item {
        Some(text) => Some(text@),
        None => None,
    }
}

/// The text held by an outcome that carries text either way.
pub open spec fn text_outcome(outcome: Result<String, String>) -> Result<Seq<char>, Seq<char>> {
    match outcome {
        Ok(text) => Ok(text@),
        Err(error) => Err(error@),
    }
}

/// Nothing of a text, a list of texts or an optional text is lost or made up on the way to what they
/// hold.
pub proof fn law_texts_are_held_whole(items: Seq<String>, text: String)
    ensures
        texts(items).len() == items.len(),
        forall|i: int| 0 <= i < items.len() ==> #[trigger] texts(items)[i] == items[i]@,
        optional_text(Some(text)) == Some(text@),
        optional_text(None) == None::<Seq<char>>,
        text_outcome(Ok(text)) == Ok::<Seq<char>, Seq<char>>(text@),
        text_outcome(Err(text)) == Err::<Seq<char>, Seq<char>>(text@),
{
}

/// A truth value is written as a script has it, and the two are told apart.
pub proof fn law_truth_values_are_told_apart(a: bool, b: bool)
    ensures
        bool_literal(a) == bool_literal(b) <==> a == b,
        a ==> bool_literal(a) == "true"@,
        !a ==> bool_literal(a) == "false"@,
{
    reveal_strlit("true");
    reveal_strlit("false");
    assert("true"@[0] != "false"@[0]);
}

} // verus!
