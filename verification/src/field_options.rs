//! The options recognised inside a field's `#[arbitrary(...)]` annotation:
//! `default`, `with = ...` and `value = ...`.

use vstd::prelude::*;
use vstd::string::StringExecFns;
use crate::ast::{OptionExpr, OptionExprView, OptionShape, ShapeView};
use crate::listfmt::{format_name_list, quoted_list};
use crate::messages::{
    expected_eq_message, expected_value_error, expected_value_message, unexpected_token_message,
};

verus! {

/// The option names the field pipeline knows, in the order diagnostics
/// cite them.
pub open spec fn field_option_names() -> Seq<Seq<char>> {
    seq!["default"@, "with"@, "value"@]
}

/// Names of the implemented field options.
#[derive(Clone, Copy, PartialEq, Eq, Structural, Debug)]
pub enum OptionName {
    /// `default`: place the type's own zero-value constructor.
    TypeDefault,
    /// `with = ...`: a user-supplied callable generates the value.
    With,
    /// `value = ...`: the field is always this fragment.
    Value,
}

/// The table lookup: which option tag, if any, `name` denotes.
pub open spec fn spec_find_field_option(name: Seq<char>) -> Option<OptionName> {
    if name == "default"@ {
        Some(OptionName::TypeDefault)
    } else if name == "with"@ {
        Some(OptionName::With)
    } else if name == "value"@ {
        Some(OptionName::Value)
    } else {
        None
    }
}

/// The textual form of an option tag, as diagnostics cite it.
pub open spec fn spec_field_option_text(o: OptionName) -> Seq<char> {
    match o {
        OptionName::TypeDefault => "default"@,
        OptionName::With => "with"@,
        OptionName::Value => "value"@,
    }
}

impl OptionName {
    /// Every known field option name, the single source for both
    /// recognition and the unknown-option diagnostic.
    pub fn all_names() -> (r: Vec<&'static str>)
        ensures
            r.deep_view() == field_option_names(),
    {
        let mut v: Vec<&'static str> = Vec::new();
        v.push("default");
        v.push("with");
        v.push("value");
        proof {
            assert(v.deep_view() =~= field_option_names());
        }
        v
    }

    /// Look `name` up in the table of known field options.
    pub fn find(name: &String) -> (r: Option<OptionName>)
        ensures
            r == spec_find_field_option(name@),
            r is Some <==> field_option_names().contains(name@),
    {
        proof {
            if field_option_names().contains(name@) {
                let i = choose|i: int|
                    0 <= i < field_option_names().len() && field_option_names()[i] == name@;
                assert(i == 0 || i == 1 || i == 2);
            }
            assert(field_option_names()[0] == "default"@);
            assert(field_option_names()[1] == "with"@);
            assert(field_option_names()[2] == "value"@);
        }
        if *name == String::from_str("default") {
            Some(OptionName::TypeDefault)
        } else if *name == String::from_str("with") {
            Some(OptionName::With)
        } else if *name == String::from_str("value") {
            Some(OptionName::Value)
        } else {
            None
        }
    }

    /// The textual form of this option's name, for diagnostics.
    pub fn as_str(&self) -> (r: &'static str)
        ensures
            r@ == spec_field_option_text(*self),
    {
        match self {
            OptionName::TypeDefault => "default",
            OptionName::With => "with",
            OptionName::Value => "value",
        }
    }
}

/// Error text for an option identifier the field pipeline does not know,
/// enumerating every valid name.
pub open spec fn unknown_field_option_message(name: Seq<char>) -> Seq<char> {
    "Unknown option for `#[arbitrary]`: `"@ + name
        + "`. Known options for field attributes are: "@ + quoted_list(field_option_names())
}

/// Build [`unknown_field_option_message`] for the given identifier.
pub(crate) fn unknown_field_option_error(name: &String) -> (r: String)
    ensures
        r@ == unknown_field_option_message(name@),
{
    let mut m = String::from_str("Unknown option for `#[arbitrary]`: `");
    m.append(name.as_str());
    m.append("`. Known options for field attributes are: ");
    let list = format_name_list(&OptionName::all_names());
    m.append(list.as_str());
    proof {
        assert(m@ =~= unknown_field_option_message(name@));
    }
    m
}

/// Mathematical image of [`FieldOption`].
pub enum FieldOptionView {
    TypeDefault,
    With(Seq<char>),
    Value(Seq<char>),
}

/// A single parsed field option, with its verbatim payload.
#[derive(Debug, PartialEq, Eq, Clone)]
pub enum FieldOption {
    /// A bare `default`.
    TypeDefault,
    /// `with = <fragment>`.
    With(String),
    /// `value = <fragment>`.
    Value(String),
}

impl View for FieldOption {
    type V = FieldOptionView;

    open spec fn view(&self) -> FieldOptionView {
        match self {
            FieldOption::TypeDefault => FieldOptionView::TypeDefault,
            FieldOption::With(f) => FieldOptionView::With(f@),
            FieldOption::Value(v) => FieldOptionView::Value(v@),
        }
    }
}

impl DeepView for FieldOption {
    type V = FieldOptionView;

    open spec fn deep_view(&self) -> FieldOptionView {
        self.view()
    }
}

/// What parsing one option expression of the field pipeline yields: the
/// typed option, or the diagnostic message.  `default` must be bare;
/// `with` and `value` need a value, captured verbatim.
pub open spec fn spec_parse_field_option(e: OptionExprView) -> Result<FieldOptionView, Seq<char>> {
    match spec_find_field_option(e.name) {
        Option::None => Err(unknown_field_option_message(e.name)),
        Option::Some(OptionName::TypeDefault) => match e.shape {
            ShapeView::Bare => Ok(FieldOptionView::TypeDefault),
            ShapeView::Assign(_) => Err(unexpected_token_message()),
            ShapeView::Group(_) => Err(unexpected_token_message()),
        },
        Option::Some(OptionName::With) => match e.shape {
            ShapeView::Assign(f) => Ok(FieldOptionView::With(f)),
            ShapeView::Bare => Err(expected_value_message("with"@)),
            ShapeView::Group(_) => Err(expected_eq_message()),
        },
        Option::Some(OptionName::Value) => match e.shape {
            ShapeView::Assign(v) => Ok(FieldOptionView::Value(v)),
            ShapeView::Bare => Err(expected_value_message("value"@)),
            ShapeView::Group(_) => Err(expected_eq_message()),
        },
    }
}

/// The view of a parse result, for stating contracts.
pub open spec fn field_option_result_view(r: Result<FieldOption, String>) -> Result<
    FieldOptionView,
    Seq<char>,
> {
    match r {
        Ok(o) => Ok(o@),
        Err(m) => Err(m@),
    }
}

/// The option tag a parsed option belongs to.
pub open spec fn spec_option_name_of(o: FieldOptionView) -> OptionName {
    match o {
        FieldOptionView::TypeDefault => OptionName::TypeDefault,
        FieldOptionView::With(_) => OptionName::With,
        FieldOptionView::Value(_) => OptionName::Value,
    }
}

impl FieldOption {
    /// The name this option was written under, for diagnostics.
    pub fn as_str(&self) -> (r: &'static str)
        ensures
            r@ == spec_field_option_text(spec_option_name_of(self@)),
    {
        match self {
            FieldOption::TypeDefault => "default",
            FieldOption::With(_) => "with",
            FieldOption::Value(_) => "value",
        }
    }

    /// Parse a single option expression of a field annotation.
    pub fn parse(e: &OptionExpr) -> (r: Result<FieldOption, String>)
        ensures
            field_option_result_view(r) == spec_parse_field_option(e@),
    {
        match OptionName::find(&e.name) {
            Option::None => Err(unknown_field_option_error(&e.name)),
            Option::Some(OptionName::TypeDefault) => match &e.shape {
                OptionShape::Bare => Ok(FieldOption::TypeDefault),
                OptionShape::Assign(_) => Err(String::from_str("unexpected token in attribute")),
                OptionShape::Group(_) => Err(String::from_str("unexpected token in attribute")),
            },
            Option::Some(OptionName::With) => match &e.shape {
                OptionShape::Assign(f) => Ok(FieldOption::With(f.clone())),
                OptionShape::Bare => Err(expected_value_error("with")),
                OptionShape::Group(_) => Err(String::from_str("expected `=`")),
            },
            Option::Some(OptionName::Value) => match &e.shape {
                OptionShape::Assign(v) => Ok(FieldOption::Value(v.clone())),
                OptionShape::Bare => Err(expected_value_error("value")),
                OptionShape::Group(_) => Err(String::from_str("expected `=`")),
            },
        }
    }
}

} // verus!
