//! How a value for one field is constructed, and the code fragments the
//! generator splices in for it.
//!
//! The four modes are a strict one-shot choice per field; the fold that
//! picks one lives in [`crate::field`].  Every generated fragment is plain
//! text, pinned exactly by the spec functions here.

use vstd::prelude::*;
use vstd::string::StringExecFns;

verus! {

/// Mathematical image of a field's construction mode.
pub enum ModeView {
    UseDefaultTrait,
    UseTypeDefault,
    UseCustomExpression(Seq<char>),
    UseFixedValue(Seq<char>),
}

/// The option name under which a mode was chosen, cited by conflict
/// diagnostics; empty for the initial mode, which no option sets.
pub open spec fn spec_mode_text(m: ModeView) -> Seq<char> {
    match m {
        ModeView::UseDefaultTrait => ""@,
        ModeView::UseTypeDefault => "default"@,
        ModeView::UseCustomExpression(_) => "with"@,
        ModeView::UseFixedValue(_) => "value"@,
    }
}

/// The construction expression for a field whose value source is the
/// fragment `u`.
pub open spec fn spec_constructor_text(m: ModeView, u: Seq<char>) -> Seq<char> {
    match m {
        ModeView::UseDefaultTrait => "arbitrary::Arbitrary::arbitrary("@ + u + ")?"@,
        ModeView::UseTypeDefault => "Default::default()"@,
        ModeView::UseCustomExpression(f) => "("@ + f + ")("@ + u + ")?"@,
        ModeView::UseFixedValue(v) => v,
    }
}

/// The construction expression for the last field of a structure, which
/// consumes the whole remaining input in one shot.
pub open spec fn spec_constructor_take_rest_text(m: ModeView) -> Seq<char> {
    match m {
        ModeView::UseDefaultTrait => "arbitrary::Arbitrary::arbitrary_take_rest(u)?"@,
        ModeView::UseTypeDefault => "Default::default()"@,
        ModeView::UseCustomExpression(f) => "("@ + f + ")(&mut u)?"@,
        ModeView::UseFixedValue(v) => v,
    }
}

/// The size-hint expression for a field of declared type `ty`.  A custom
/// expression gets a conservative, inexact placeholder sized to the
/// in-memory size of the type, with no upper bound.
pub open spec fn spec_size_hint_text(m: ModeView, ty: Seq<char>) -> Seq<char> {
    match m {
        ModeView::UseDefaultTrait => "<"@ + ty + " as arbitrary::Arbitrary>::size_hint(depth)"@,
        ModeView::UseTypeDefault => "(0, Some(0))"@,
        ModeView::UseCustomExpression(_) => "(::core::mem::size_of::<"@ + ty + ">(), None)"@,
        ModeView::UseFixedValue(_) => "(0, Some(0))"@,
    }
}

/// Determines how a value for a field is constructed.
#[derive(Debug, PartialEq, Eq, Clone)]
pub enum FieldConstructor {
    /// Invoke the general-purpose arbitrary-value constructor for the
    /// field's declared type (the initial mode).
    UseDefaultTrait,
    /// Invoke the type's own zero-value constructor, `Default::default()`.
    UseTypeDefault,
    /// Invoke a user-supplied callable, kept verbatim, with the value
    /// source.
    UseCustomExpression(String),
    /// Splice a user-supplied fragment in as the field's value.
    UseFixedValue(String),
}

impl View for FieldConstructor {
    type V = ModeView;

    open spec fn view(&self) -> ModeView {
        match self {
            FieldConstructor::UseDefaultTrait => ModeView::UseDefaultTrait,
            FieldConstructor::UseTypeDefault => ModeView::UseTypeDefault,
            FieldConstructor::UseCustomExpression(f) => ModeView::UseCustomExpression(f@),
            FieldConstructor::UseFixedValue(v) => ModeView::UseFixedValue(v@),
        }
    }
}

impl DeepView for FieldConstructor {
    type V = ModeView;

    open spec fn deep_view(&self) -> ModeView {
        self.view()
    }
}

impl Default for FieldConstructor {
    /// The mode of a field that carries no recognised annotation.
    fn default() -> (r: FieldConstructor)
        ensures
            r@ == ModeView::UseDefaultTrait,
    {
        FieldConstructor::UseDefaultTrait
    }
}

impl FieldConstructor {
    /// Generate the construction expression for this mode, with `u` as the
    /// value-source fragment.
    pub fn generate_constructor(&self, u: &str) -> (r: String)
        ensures
            r@ == spec_constructor_text(self@, u@),
    {
        match self {
            FieldConstructor::UseDefaultTrait => {
                let mut s = String::from_str("arbitrary::Arbitrary::arbitrary(");
                s.append(u);
                s.append(")?");
                proof {
                    assert(s@ =~= spec_constructor_text(self@, u@));
                }
                s
            },
            FieldConstructor::UseTypeDefault => String::from_str("Default::default()"),
            FieldConstructor::UseCustomExpression(f) => {
                let mut s = String::from_str("(");
                s.append(f.as_str());
                s.append(")(");
                s.append(u);
                s.append(")?");
                proof {
                    assert(s@ =~= spec_constructor_text(self@, u@));
                }
                s
            },
            FieldConstructor::UseFixedValue(v) => v.clone(),
        }
    }

    /// Generate the construction expression for the last field of a
    /// structure, which consumes the remaining input whole.
    pub fn generate_constructor_take_rest(&self) -> (r: String)
        ensures
            r@ == spec_constructor_take_rest_text(self@),
    {
        match self {
            FieldConstructor::UseDefaultTrait => String::from_str(
                "arbitrary::Arbitrary::arbitrary_take_rest(u)?",
            ),
            FieldConstructor::UseTypeDefault => String::from_str("Default::default()"),
            FieldConstructor::UseCustomExpression(f) => {
                let mut s = String::from_str("(");
                s.append(f.as_str());
                s.append(")(&mut u)?");
                proof {
                    assert(s@ =~= spec_constructor_take_rest_text(self@));
                }
                s
            },
            FieldConstructor::UseFixedValue(v) => v.clone(),
        }
    }

    /// Generate the size-hint expression for this mode, for a field of
    /// declared type `ty`.
    pub fn generate_size_hint(&self, ty: &str) -> (r: String)
        ensures
            r@ == spec_size_hint_text(self@, ty@),
    {
        match self {
            FieldConstructor::UseDefaultTrait => {
                let mut s = String::from_str("<");
                s.append(ty);
                s.append(" as arbitrary::Arbitrary>::size_hint(depth)");
                proof {
                    assert(s@ =~= spec_size_hint_text(self@, ty@));
                }
                s
            },
            FieldConstructor::UseTypeDefault => String::from_str("(0, Some(0))"),
            FieldConstructor::UseCustomExpression(_) => {
                let mut s = String::from_str("(::core::mem::size_of::<");
                s.append(ty);
                s.append(">(), None)");
                proof {
                    assert(s@ =~= spec_size_hint_text(self@, ty@));
                }
                s
            },
            FieldConstructor::UseFixedValue(_) => String::from_str("(0, Some(0))"),
        }
    }

    /// The option name that chose this mode, as conflict diagnostics cite
    /// it; empty for the initial mode.
    pub fn as_str(&self) -> (r: &'static str)
        ensures
            r@ == spec_mode_text(self@),
    {
        match self {
            FieldConstructor::UseDefaultTrait => "",
            FieldConstructor::UseTypeDefault => "default",
            FieldConstructor::UseCustomExpression(_) => "with",
            FieldConstructor::UseFixedValue(_) => "value",
        }
    }
}

} // verus!
