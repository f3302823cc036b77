//! The options recognised inside a container's `#[arbitrary(...)]`
//! annotation.
//!
//! One option exists today: `bound = "..."`, whose string payload must
//! itself parse as a comma-separated list of `parameter: trait-bound(s)`
//! declarations.

use vstd::prelude::*;
use vstd::string::StringExecFns;
use crate::ast::{OptionExpr, OptionExprView, OptionShape, ShapeView};
use crate::listfmt::{format_name_list, quoted_list};
use crate::messages::{expected_eq_message, expected_value_message, expected_value_error};
use crate::syntax::{
    parse_bound_list, parse_string_literal, parsed_bound_list, string_literal_value,
};

verus! {

/// The option names the container pipeline knows, in the order diagnostics
/// cite them.
pub open spec fn container_option_names() -> Seq<Seq<char>> {
    seq!["bound"@]
}

/// Names of the implemented container options.
#[derive(Clone, Copy, PartialEq, Eq, Structural, Debug)]
pub enum OptionName {
    /// `bound = "..."`: explicit generic bounds for the derived
    /// implementation, instead of the inferred ones.
    Bound,
}

impl OptionName {
    /// Every known container option name, the single source for both
    /// recognition and the unknown-option diagnostic.
    pub fn all_names() -> (r: Vec<&'static str>)
        ensures
            r.deep_view() == container_option_names(),
    {
        let mut v: Vec<&'static str> = Vec::new();
        v.push("bound");
        proof {
            assert(v.deep_view() =~= container_option_names());
        }
        v
    }

    /// Look `name` up in the table of known container options.
    pub fn find(name: &String) -> (r: Option<OptionName>)
        ensures
            r == (if name@ == "bound"@ {
                Some(OptionName::Bound)
            } else {
                None::<OptionName>
            }),
            r is Some <==> container_option_names().contains(name@),
    {
        proof {
            if container_option_names().contains(name@) {
                let i = choose|i: int|
                    0 <= i < container_option_names().len()
                        && container_option_names()[i] == name@;
                assert(i == 0);
            }
            assert(container_option_names()[0] == "bound"@);
        }
        if *name == String::from_str("bound") {
            Some(OptionName::Bound)
        } else {
            None
        }
    }

    /// The textual form of this option's name, for diagnostics.
    pub fn as_str(&self) -> (r: &'static str)
        ensures
            r@ == "bound"@,
    {
        "bound"
    }
}

/// Error text for an option identifier the container pipeline does not
/// know, enumerating every valid name.
pub open spec fn unknown_container_option_message(name: Seq<char>) -> Seq<char> {
    "Unknown option for `#[arbitrary]`: `"@ + name
        + "`. Known options for container attributes are: "@
        + quoted_list(container_option_names())
}

/// Error text when `bound` was given anything but a string literal.
pub open spec fn bound_not_string_message() -> Seq<char> {
    "Could not parse option `bound` of `#[arbitrary]` container attribute: Expected `bound = \"$($param: $bounds),*\"`"@
}

/// Error text when the string payload of `bound` is not a valid bound
/// list: the inner parser's message, then the expected top-level shape.
pub open spec fn bound_inner_message(inner: Seq<char>) -> Seq<char> {
    "Could not parse option `bound` of `#[arbitrary]` container attribute: "@ + inner
        + ". Expected `bound = \"$($param: $bounds),*\"`"@
}

/// Build [`unknown_container_option_message`] for the given identifier.
fn unknown_container_option_error(name: &String) -> (r: String)
    ensures
        r@ == unknown_container_option_message(name@),
{
    let mut m = String::from_str("Unknown option for `#[arbitrary]`: `");
    m.append(name.as_str());
    m.append("`. Known options for container attributes are: ");
    let list = format_name_list(&OptionName::all_names());
    m.append(list.as_str());
    proof {
        assert(m@ =~= unknown_container_option_message(name@));
    }
    m
}

/// Build [`bound_inner_message`] around the inner parser's message.
fn bound_inner_error(inner: &String) -> (r: String)
    ensures
        r@ == bound_inner_message(inner@),
{
    let mut m = String::from_str("Could not parse option `bound` of `#[arbitrary]` container attribute: ");
    m.append(inner.as_str());
    m.append(". Expected `bound = \"$($param: $bounds),*\"`");
    proof {
        assert(m@ =~= bound_inner_message(inner@));
    }
    m
}

/// What parsing one option expression of the container pipeline yields:
/// the bound declarations it carries, or the diagnostic message.
pub open spec fn spec_parse_container_option(e: OptionExprView) -> Result<Seq<Seq<char>>, Seq<char>> {
    if e.name != "bound"@ {
        Err(unknown_container_option_message(e.name))
    } else {
        match e.shape {
            ShapeView::Bare => Err(expected_value_message("bound"@)),
            ShapeView::Group(_) => Err(expected_eq_message()),
            ShapeView::Assign(value) => match string_literal_value(value) {
                Option::None => Err(bound_not_string_message()),
                Option::Some(content) => match parsed_bound_list(content) {
                    Ok(decls) => Ok(decls),
                    Err(inner) => Err(bound_inner_message(inner)),
                },
            },
        }
    }
}

/// A single parsed container option.
pub enum ContainerOption {
    /// The payload of one well-formed `bound = "..."` option: each bound
    /// declaration rendered verbatim.
    Bound(Vec<String>),
}

impl View for ContainerOption {
    type V = Seq<Seq<char>>;

    open spec fn view(&self) -> Seq<Seq<char>> {
        match self {
            ContainerOption::Bound(decls) => decls.deep_view(),
        }
    }
}

/// The view of a parse result, for stating contracts.
pub open spec fn container_option_result_view(r: Result<ContainerOption, String>) -> Result<
    Seq<Seq<char>>,
    Seq<char>,
> {
    match r {
        Ok(o) => Ok(o@),
        Err(m) => Err(m@),
    }
}

impl ContainerOption {
    /// Parse a single option expression of a container annotation.
    pub fn parse(e: &OptionExpr) -> (r: Result<ContainerOption, String>)
        ensures
            container_option_result_view(r) == spec_parse_container_option(e@),
    {
        match OptionName::find(&e.name) {
            Option::None => Err(unknown_container_option_error(&e.name)),
            Option::Some(OptionName::Bound) => match &e.shape {
                OptionShape::Bare => Err(expected_value_error("bound")),
                OptionShape::Group(_) => Err(String::from_str("expected `=`")),
                OptionShape::Assign(value) => match parse_string_literal(value.as_str()) {
                    Option::None => Err(String::from_str(
                        "Could not parse option `bound` of `#[arbitrary]` container attribute: Expected `bound = \"$($param: $bounds),*\"`",
                    )),
                    Option::Some(content) => match parse_bound_list(content.as_str()) {
                        Ok(decls) => Ok(ContainerOption::Bound(decls)),
                        Err(inner) => Err(bound_inner_error(&inner)),
                    },
                },
            },
        }
    }
}

} // verus!
