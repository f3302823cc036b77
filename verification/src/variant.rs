//! The variant pipeline: deciding whether an `enum` variant is skipped
//! during generation.
//!
//! This check is deliberately permissive, unlike the other two pipelines:
//! a reserved annotation whose argument does not parse as a single bare
//! `skip` — malformed or otherwise — is silently treated as "not a skip
//! marker", and no diagnostic is ever raised here.

use vstd::prelude::*;
use crate::ast::{Annotation, AnnotationArgs, AnnotationView, ArgsView, OptionShape, ShapeView};
use crate::names::{spec_reserved_name, AttributeName};
use crate::syntax::{parse_single_option, parsed_single_option};

verus! {

/// Whether one annotation marks its variant as skipped: it is in the
/// reserved namespace, and its whole argument list parses as the single
/// bare identifier `skip`.
pub open spec fn spec_annotation_skips(a: AnnotationView) -> bool {
    &&& a.name == spec_reserved_name()
    &&& a.args matches ArgsView::List(tokens)
    &&& parsed_single_option(tokens) matches Some(e)
    &&& e.shape is Bare
    &&& e.name == "skip"@
}

/// Whether any annotation of the list marks the variant as skipped.
pub open spec fn spec_skipped(anns: Seq<AnnotationView>) -> bool {
    exists|i: int| 0 <= i < anns.len() && spec_annotation_skips(anns[i])
}

/// Attributes of one `enum` variant; only the skip marker is read.
#[derive(Clone, Copy, PartialEq, Eq, Structural, Debug)]
pub struct VariantAttributes;

impl VariantAttributes {
    /// Whether the variant carrying `anns` takes part in generation.
    pub fn not_skipped(anns: &Vec<Annotation>) -> (r: bool)
        ensures
            r == !spec_skipped(anns.deep_view()),
    {
        !VariantAttributes::should_skip(anns)
    }

    /// Whether any annotation of the variant is a `skip` marker.
    #[verifier::loop_isolation(false)]
    pub fn should_skip(anns: &Vec<Annotation>) -> (r: bool)
        ensures
            r == spec_skipped(anns.deep_view()),
    {
        let ghost anns_view: Seq<AnnotationView> = anns.deep_view();
        let mut i: usize = 0;
        while i < anns.len()
            invariant
                i <= anns.len(),
                forall|j: int| 0 <= j < i ==> !spec_annotation_skips(anns_view[j]),
            decreases anns.len() - i,
        {
            let a = &anns[i];
            if AttributeName::find(&a.name).is_some() {
                match &a.args {
                    AnnotationArgs::List(tokens) => {
                        match parse_single_option(tokens.as_str()) {
                            Option::Some(e) => {
                                let is_bare = match &e.shape {
                                    OptionShape::Bare => true,
                                    _ => false,
                                };
                                if is_bare && e.name == String::from_str("skip") {
                                    proof {
                                        assert(spec_annotation_skips(anns_view[i as int]));
                                    }
                                    return true;
                                }
                            },
                            Option::None => {},
                        }
                    },
                    _ => {},
                }
            }
            i = i + 1;
        }
        false
    }
}

} // verus!
