//! The boundary to the host language's own grammar.
//!
//! The library never parses source text itself: the four functions here hand
//! token fragments to `syn`, the standard parsing library, and convert what
//! comes back into the plain values of [`crate::ast`].  Each parse is a pure
//! function of the text it is given, so its outcome is captured by an
//! uninterpreted name that the rest of the library's contracts speak of.

use vstd::prelude::*;
use crate::ast::{OptionExpr, OptionExprView, OptionShape};

verus! {

/// The `syn::Meta` syntax-tree node, opaque to this library.
#[verifier::external_type_specification]
#[verifier::external_body]
pub struct ExMeta(syn::Meta);

/// What parsing `tokens` as a comma-separated option-expression list yields:
/// the expressions in written order, or the parser's error message.
pub uninterp spec fn parsed_options(tokens: Seq<char>) -> Result<Seq<OptionExprView>, Seq<char>>;

/// What parsing `tokens` as one single whole option expression yields, if it
/// parses at all.
pub uninterp spec fn parsed_single_option(tokens: Seq<char>) -> Option<OptionExprView>;

/// The content of `tokens` when they are exactly one string literal.
pub uninterp spec fn string_literal_value(tokens: Seq<char>) -> Option<Seq<char>>;

/// What parsing `content` as a comma-separated list of
/// `parameter: trait-bound(s)` declarations yields: each declaration rendered
/// back to text, or the parser's error message.
pub uninterp spec fn parsed_bound_list(content: Seq<char>) -> Result<Seq<Seq<char>>, Seq<char>>;

/// Relies on `syn::Meta`'s three shapes and on `quote::ToTokens`: the
/// option's head path and its value or inner tokens, rendered verbatim.
/// Only the trusted parsers below call it.
#[verifier::external_body]
fn option_expr_of_meta(m: &syn::Meta) -> OptionExpr {
    let name = quote::ToTokens::to_token_stream(m.path()).to_string();
    let shape = match m {
        syn::Meta::Path(_) => OptionShape::Bare,
        syn::Meta::NameValue(nv) => OptionShape::Assign(
            quote::ToTokens::to_token_stream(&nv.value).to_string(),
        ),
        syn::Meta::List(l) => OptionShape::Group(l.tokens.to_string()),
    };
    OptionExpr { name, shape }
}

/// Relies on `syn::parse::Parser::parse_str` with
/// `Punctuated::<syn::Meta, Comma>::parse_terminated`: the comma-separated
/// option expressions of an annotation's argument list, or `syn`'s error.
#[verifier::external_body]
pub(crate) fn parse_option_list(tokens: &str) -> (r: Result<Vec<OptionExpr>, String>)
    ensures
        r matches Ok(v) ==> parsed_options(tokens@) matches Ok(s) && v.deep_view() == s,
        r matches Err(e) ==> parsed_options(tokens@) matches Err(s) && e@ == s,
{
    let parser = syn::punctuated::Punctuated::<syn::Meta, syn::token::Comma>::parse_terminated;
    match syn::parse::Parser::parse_str(parser, tokens) {
        Ok(metas) => Ok(metas.iter().map(option_expr_of_meta).collect()),
        Err(e) => Err(e.to_string()),
    }
}

/// Relies on `syn::parse_str::<syn::Meta>`: `Some` exactly when the tokens
/// form one whole option expression and nothing more.
#[verifier::external_body]
pub(crate) fn parse_single_option(tokens: &str) -> (r: Option<OptionExpr>)
    ensures
        r.deep_view() == parsed_single_option(tokens@),
{
    match syn::parse_str::<syn::Meta>(tokens) {
        Ok(m) => Some(option_expr_of_meta(&m)),
        Err(_) => None,
    }
}

/// Relies on `syn::parse_str::<syn::LitStr>` and `syn::LitStr::value`:
/// `Some(content)` exactly when the tokens are one string literal.
#[verifier::external_body]
pub(crate) fn parse_string_literal(tokens: &str) -> (r: Option<String>)
    ensures
        r.deep_view() == string_literal_value(tokens@),
{
    match syn::parse_str::<syn::LitStr>(tokens) {
        Ok(lit) => Some(lit.value()),
        Err(_) => None,
    }
}

/// Relies on `syn::parse::Parser::parse_str` with
/// `Punctuated::<syn::TypeParam, Comma>::parse_terminated`, rendering each
/// parsed declaration back to text with `quote::ToTokens`.
#[verifier::external_body]
pub(crate) fn parse_bound_list(content: &str) -> (r: Result<Vec<String>, String>)
    ensures
        r matches Ok(v) ==> parsed_bound_list(content@) matches Ok(s) && v.deep_view() == s,
        r matches Err(e) ==> parsed_bound_list(content@) matches Err(s) && e@ == s,
{
    let parser = syn::punctuated::Punctuated::<syn::TypeParam, syn::token::Comma>::parse_terminated;
    match syn::parse::Parser::parse_str(parser, content) {
        Ok(params) => Ok(params.iter().map(|p| quote::ToTokens::to_token_stream(p).to_string()).collect()),
        Err(e) => Err(e.to_string()),
    }
}

} // verus!
