//! Recognising the tool's own annotation namespace.
//!
//! Exactly one reserved annotation name exists today, `arbitrary`; every
//! other annotation name is inert and must be skipped silently, never
//! reported as an error.

use vstd::prelude::*;
use vstd::string::StringExecFns;

verus! {

/// The reserved namespace identifier, `arbitrary`, as a sequence of
/// characters.  Both recognition and every diagnostic that cites the
/// namespace speak of this one definition.
pub open spec fn spec_reserved_name() -> Seq<char> {
    "arbitrary"@
}

/// The annotations this tool claims for itself.
#[derive(Clone, Copy, PartialEq, Eq, Structural, Debug)]
pub enum AttributeName {
    /// The `#[arbitrary(...)]` annotation.
    Arbitrary,
}

impl AttributeName {
    /// Decide whether `name` is a reserved annotation name.
    ///
    /// `None` means "not ours": the caller must skip the annotation
    /// silently, since unrelated annotations on the same declaration are a
    /// normal condition.
    pub fn find(name: &String) -> (r: Option<AttributeName>)
        ensures
            r == (if name@ == spec_reserved_name() {
                Some(AttributeName::Arbitrary)
            } else {
                None::<AttributeName>
            }),
    {
        if *name == String::from_str("arbitrary") {
            Some(AttributeName::Arbitrary)
        } else {
            None
        }
    }

    /// The textual form of the reserved name, for use in diagnostics.
    pub fn as_str(&self) -> (r: &'static str)
        ensures
            r@ == spec_reserved_name(),
    {
        "arbitrary"
    }
}

} // verus!
