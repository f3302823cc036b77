//! The container pipeline: folding every annotation on a `struct` or `enum`
//! declaration into one [`ContainerAttributes`] value.
//!
//! Unlike the field pipeline, repeated `bound = "..."` options never
//! conflict: each well-formed occurrence appends its declarations to the
//! running set.

use vstd::prelude::*;
use crate::ast::{
    Annotation, AnnotationArgs, AnnotationView, ArgsView, Diagnostic, DiagnosticView, OptionExpr,
    OptionExprView,
};
use crate::container_options::{spec_parse_container_option, ContainerOption};
use crate::messages::{annotation_needs_list_message, annotation_needs_parens_message};
use crate::names::{spec_reserved_name, AttributeName};
use crate::syntax::{parse_option_list, parsed_options};

verus! {

/// Cumulated attributes of one container declaration.
///
/// `bounds` holds the explicit generic-bound declarations collected from
/// every `bound = "..."` option, in written order, each kept verbatim;
/// `None` when no such option occurred.
#[derive(Debug, PartialEq, Eq, Clone)]
pub struct ContainerAttributes {
    pub bounds: Option<Vec<String>>,
}

/// Mathematical image of [`ContainerAttributes`].
pub struct ContainerAttributesView {
    pub bounds: Option<Seq<Seq<char>>>,
}

impl View for ContainerAttributes {
    type V = ContainerAttributesView;

    open spec fn view(&self) -> ContainerAttributesView {
        ContainerAttributesView { bounds: self.bounds.deep_view() }
    }
}

impl DeepView for ContainerAttributes {
    type V = ContainerAttributesView;

    open spec fn deep_view(&self) -> ContainerAttributesView {
        self.view()
    }
}

/// The configuration with `decls` merged in: a first occurrence populates
/// the set, later ones append, never replace.
pub open spec fn spec_merge_bounds(
    st: ContainerAttributesView,
    decls: Seq<Seq<char>>,
) -> ContainerAttributesView {
    match st.bounds {
        Option::None => ContainerAttributesView { bounds: Some(decls) },
        Option::Some(b) => ContainerAttributesView { bounds: Some(b + decls) },
    }
}

/// One option expression applied to the running configuration.
pub open spec fn spec_container_option_step(
    st: ContainerAttributesView,
    e: OptionExprView,
) -> Result<ContainerAttributesView, Seq<char>> {
    match spec_parse_container_option(e) {
        Ok(decls) => Ok(spec_merge_bounds(st, decls)),
        Err(m) => Err(m),
    }
}

/// A whole option list folded into the running configuration, stopping at
/// the first error.
pub open spec fn spec_container_options_fold(
    st: ContainerAttributesView,
    opts: Seq<OptionExprView>,
) -> Result<ContainerAttributesView, Seq<char>>
    decreases opts.len(),
{
    if opts.len() == 0 {
        Ok(st)
    } else {
        match spec_container_option_step(st, opts[0]) {
            Ok(st2) => spec_container_options_fold(st2, opts.drop_first()),
            Err(m) => Err(m),
        }
    }
}

/// One annotation applied to the running configuration.  An annotation
/// outside the reserved namespace changes nothing and never fails.
pub open spec fn spec_container_annotation_step(
    st: ContainerAttributesView,
    a: AnnotationView,
) -> Result<ContainerAttributesView, DiagnosticView> {
    if a.name != spec_reserved_name() {
        Ok(st)
    } else {
        match a.args {
            ArgsView::List(tokens) => match parsed_options(tokens) {
                Ok(opts) => match spec_container_options_fold(st, opts) {
                    Ok(st2) => Ok(st2),
                    Err(m) => Err(DiagnosticView { span: a.span, message: m }),
                },
                Err(m) => Err(DiagnosticView { span: a.span, message: m }),
            },
            ArgsView::Empty => Err(
                DiagnosticView { span: a.span, message: annotation_needs_parens_message() },
            ),
            ArgsView::Value(_) => Err(
                DiagnosticView { span: a.span, message: annotation_needs_list_message() },
            ),
        }
    }
}

/// The whole annotation list folded left to right, stopping at the first
/// error.
pub open spec fn spec_container_fold(
    st: ContainerAttributesView,
    anns: Seq<AnnotationView>,
) -> Result<ContainerAttributesView, DiagnosticView>
    decreases anns.len(),
{
    if anns.len() == 0 {
        Ok(st)
    } else {
        match spec_container_annotation_step(st, anns[0]) {
            Ok(st2) => spec_container_fold(st2, anns.drop_first()),
            Err(d) => Err(d),
        }
    }
}

/// The view of a fold result, for stating contracts.
pub open spec fn container_result_view(r: Result<ContainerAttributes, Diagnostic>) -> Result<
    ContainerAttributesView,
    DiagnosticView,
> {
    match r {
        Ok(c) => Ok(c@),
        Err(d) => Err(d@),
    }
}

/// The view of an option-step result, for stating contracts.
pub open spec fn container_state_result_view(r: Result<ContainerAttributes, String>) -> Result<
    ContainerAttributesView,
    Seq<char>,
> {
    match r {
        Ok(c) => Ok(c@),
        Err(m) => Err(m@),
    }
}

impl Default for ContainerAttributes {
    /// The configuration before any annotation was read: no explicit
    /// bounds.
    fn default() -> (r: ContainerAttributes)
        ensures
            r@ == (ContainerAttributesView { bounds: None::<Seq<Seq<char>>> }),
    {
        ContainerAttributes { bounds: None }
    }
}

impl ContainerAttributes {
    /// Parse the next option and return the new configuration.
    pub fn next_option(self, e: &OptionExpr) -> (r: Result<ContainerAttributes, String>)
        ensures
            container_state_result_view(r) == spec_container_option_step(self@, e@),
    {
        match ContainerOption::parse(e) {
            Ok(ContainerOption::Bound(mut decls)) => {
                let ghost decls_view: Seq<Seq<char>> = decls.deep_view();
                let mut bounds: Vec<String> = match self.bounds {
                    Option::Some(b) => b,
                    Option::None => Vec::new(),
                };
                let ghost old_bounds: Seq<Seq<char>> = bounds.deep_view();
                bounds.append(&mut decls);
                proof {
                    assert(bounds.deep_view() =~= old_bounds + decls_view);
                }
                Ok(ContainerAttributes { bounds: Some(bounds) })
            },
            Err(m) => Err(m),
        }
    }

    /// Process the next annotation; one outside the reserved namespace is
    /// skipped silently.
    #[verifier::loop_isolation(false)]
    pub fn next_attribute(self, a: &Annotation) -> (r: Result<ContainerAttributes, Diagnostic>)
        ensures
            container_result_view(r) == spec_container_annotation_step(self@, a@),
    {
        match AttributeName::find(&a.name) {
            Option::None => Ok(self),
            Option::Some(AttributeName::Arbitrary) => match &a.args {
                AnnotationArgs::List(tokens) => match parse_option_list(tokens.as_str()) {
                    Ok(opts) => {
                        let ghost st0: ContainerAttributesView = self@;
                        let ghost opts_view: Seq<OptionExprView> = opts.deep_view();
                        let mut st = self;
                        let mut i: usize = 0;
                        proof {
                            assert(opts_view.skip(0) =~= opts_view);
                        }
                        while i < opts.len()
                            invariant
                                i <= opts.len(),
                                opts_view == opts.deep_view(),
                                spec_container_options_fold(st0, opts_view)
                                    == spec_container_options_fold(
                                    st@,
                                    opts_view.skip(i as int),
                                ),
                            decreases opts.len() - i,
                        {
                            let ghost before: ContainerAttributesView = st@;
                            let step = st.next_option(&opts[i]);
                            proof {
                                assert(opts_view.skip(i as int)[0] == opts_view[i as int]);
                                assert(opts_view.skip(i as int).drop_first() =~= opts_view.skip(
                                    i as int + 1,
                                ));
                            }
                            match step {
                                Ok(st2) => {
                                    st = st2;
                                },
                                Err(m) => {
                                    proof {
                                        let sk = opts_view.skip(i as int);
                                        assert(spec_container_option_step(before, sk[0]) == Err::<
                                            ContainerAttributesView,
                                            Seq<char>,
                                        >(m@));
                                        assert(spec_container_options_fold(before, sk) == Err::<
                                            ContainerAttributesView,
                                            Seq<char>,
                                        >(m@));
                                    }
                                    return Err(Diagnostic::new(a.span, m));
                                },
                            }
                            i = i + 1;
                        }
                        proof {
                            assert(opts_view.skip(opts_view.len() as int) =~= Seq::<
                                OptionExprView,
                            >::empty());
                        }
                        Ok(st)
                    },
                    Err(m) => Err(Diagnostic::new(a.span, m)),
                },
                AnnotationArgs::Empty => Err(
                    Diagnostic::new(
                        a.span,
                        String::from_str(
                            "expected attribute arguments in parentheses: `arbitrary(...)`",
                        ),
                    ),
                ),
                AnnotationArgs::Value(_) => Err(
                    Diagnostic::new(a.span, String::from_str("expected `(`")),
                ),
            },
        }
    }

    /// Fold every annotation of a container declaration, in written order,
    /// into one configuration; the first error aborts the fold.
    #[verifier::loop_isolation(false)]
    pub fn from_annotations(anns: &Vec<Annotation>) -> (r: Result<ContainerAttributes, Diagnostic>)
        ensures
            container_result_view(r) == spec_container_fold(
                ContainerAttributesView { bounds: None::<Seq<Seq<char>>> },
                anns.deep_view(),
            ),
    {
        let ghost st0: ContainerAttributesView = ContainerAttributesView {
            bounds: None::<Seq<Seq<char>>>,
        };
        let ghost anns_view: Seq<AnnotationView> = anns.deep_view();
        let mut st = ContainerAttributes::default();
        let mut i: usize = 0;
        proof {
            assert(anns_view.skip(0) =~= anns_view);
        }
        while i < anns.len()
            invariant
                i <= anns.len(),
                anns_view == anns.deep_view(),
                spec_container_fold(st0, anns_view) == spec_container_fold(
                    st@,
                    anns_view.skip(i as int),
                ),
            decreases anns.len() - i,
        {
            let ghost before: ContainerAttributesView = st@;
            let step = st.next_attribute(&anns[i]);
            proof {
                assert(anns_view.skip(i as int)[0] == anns_view[i as int]);
                assert(anns_view.skip(i as int).drop_first() =~= anns_view.skip(i as int + 1));
            }
            match step {
                Ok(st2) => {
                    st = st2;
                },
                Err(d) => {
                    proof {
                        let sk = anns_view.skip(i as int);
                        assert(spec_container_annotation_step(before, sk[0]) == Err::<
                            ContainerAttributesView,
                            DiagnosticView,
                        >(d@));
                        assert(spec_container_fold(before, sk) == Err::<
                            ContainerAttributesView,
                            DiagnosticView,
                        >(d@));
                    }
                    return Err(d);
                },
            }
            i = i + 1;
        }
        proof {
            assert(anns_view.skip(anns_view.len() as int) =~= Seq::<AnnotationView>::empty());
        }
        Ok(st)
    }
}

} // verus!
