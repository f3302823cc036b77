//! Diagnostic texts shared by more than one pipeline.
//!
//! Every message a pipeline can raise is pinned, character for character, by
//! a spec function here or in the pipeline's own module; the executable
//! builders are proved to produce exactly that text.

use vstd::prelude::*;
use vstd::string::StringExecFns;

verus! {

/// Error text when an option that needs a value (`name = ...`) was written
/// in another shape with a bare name.
pub open spec fn expected_value_message(name: Seq<char>) -> Seq<char> {
    "expected a value for this attribute: `"@ + name + " = ...`"@
}

/// Error text when an option that needs a value (`name = ...`) was written
/// as a parenthesised group.
pub open spec fn expected_eq_message() -> Seq<char> {
    "expected `=`"@
}

/// Error text when a bare option was given a value or a group.
pub open spec fn unexpected_token_message() -> Seq<char> {
    "unexpected token in attribute"@
}

/// Error text when a reserved annotation carries no argument list at all
/// (`#[arbitrary]`).
pub open spec fn annotation_needs_parens_message() -> Seq<char> {
    "expected attribute arguments in parentheses: `arbitrary(...)`"@
}

/// Error text when a reserved annotation was written `#[arbitrary = ...]`
/// where a parenthesised list was needed.
pub open spec fn annotation_needs_list_message() -> Seq<char> {
    "expected `(`"@
}

/// Build [`expected_value_message`] for the given option name.
pub fn expected_value_error(name: &str) -> (r: String)
    ensures
        r@ == expected_value_message(name@),
{
    let mut m = String::from_str("expected a value for this attribute: `");
    m.append(name);
    m.append(" = ...`");
    proof {
        assert(m@ =~= expected_value_message(name@));
    }
    m
}

} // verus!
