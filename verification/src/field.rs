//! The field pipeline: folding every annotation on one field into a single
//! construction mode.
//!
//! The mode is a strict one-shot selection.  The fold starts at
//! `UseDefaultTrait`; the first mode-setting option is binding for the rest
//! of the fold, across every reserved annotation on the field, and any
//! later option fails with a conflict diagnostic naming both choices.

use vstd::prelude::*;
use vstd::string::StringExecFns;
use crate::ast::{
    Annotation, AnnotationArgs, AnnotationView, ArgsView, Diagnostic, DiagnosticView, OptionExpr,
    OptionExprView,
};
use crate::field_constructor::{
    spec_constructor_take_rest_text, spec_constructor_text, spec_mode_text, spec_size_hint_text,
    FieldConstructor, ModeView,
};
use crate::field_options::{
    spec_field_option_text, spec_find_field_option, spec_parse_field_option,
    unknown_field_option_error, unknown_field_option_message, FieldOption, FieldOptionView,
    OptionName,
};
use crate::names::{spec_reserved_name, AttributeName};
use crate::syntax::{parse_option_list, parsed_options};

verus! {

/// Error text when a second option arrives after a field's mode was
/// already fixed, naming the earlier choice and the attempted one.
pub open spec fn conflict_message(previous: Seq<char>, current: Seq<char>) -> Seq<char> {
    "Option "@ + previous + " does not allow additional options, got "@ + current
}

/// Error text when a reserved annotation on a field does not carry a
/// parenthesised option list; `detail` says what was found instead.
pub open spec fn must_contain_group_message(detail: Seq<char>) -> Seq<char> {
    "#[arbitrary] must contain a group: "@ + detail
}

/// The detail of [`must_contain_group_message`] for a bare `#[arbitrary]`.
pub open spec fn bare_annotation_detail() -> Seq<char> {
    "expected attribute arguments in parentheses: #[arbitrary(...)]"@
}

/// The detail of [`must_contain_group_message`] for `#[arbitrary = ...]`.
pub open spec fn value_annotation_detail() -> Seq<char> {
    "expected parentheses: #[arbitrary(...)]"@
}

/// Build [`conflict_message`] for the two option names.
pub(crate) fn conflict_error(previous: &str, current: &str) -> (r: String)
    ensures
        r@ == conflict_message(previous@, current@),
{
    let mut m = String::from_str("Option ");
    m.append(previous);
    m.append(" does not allow additional options, got ");
    m.append(current);
    proof {
        assert(m@ =~= conflict_message(previous@, current@));
    }
    m
}

/// Build [`must_contain_group_message`] around the given detail.
pub(crate) fn must_contain_group_error(detail: &str) -> (r: String)
    ensures
        r@ == must_contain_group_message(detail@),
{
    let mut m = String::from_str("#[arbitrary] must contain a group: ");
    m.append(detail);
    proof {
        assert(m@ =~= must_contain_group_message(detail@));
    }
    m
}

/// One option expression applied to the running mode: the state machine of
/// the one-shot selection.  The option's name is recognised first; a
/// conflict with an already-fixed mode is reported before any shape check.
pub open spec fn spec_field_next(st: ModeView, e: OptionExprView) -> Result<ModeView, Seq<char>> {
    match spec_find_field_option(e.name) {
        Option::None => Err(unknown_field_option_message(e.name)),
        Option::Some(tag) => if st is UseDefaultTrait {
            match spec_parse_field_option(e) {
                Ok(opt) => Ok(spec_mode_of_option(opt)),
                Err(m) => Err(m),
            }
        } else {
            Err(conflict_message(spec_mode_text(st), spec_field_option_text(tag)))
        },
    }
}

/// The mode a freshly parsed option selects.
pub open spec fn spec_mode_of_option(opt: FieldOptionView) -> ModeView {
    match opt {
        FieldOptionView::TypeDefault => ModeView::UseTypeDefault,
        FieldOptionView::With(f) => ModeView::UseCustomExpression(f),
        FieldOptionView::Value(v) => ModeView::UseFixedValue(v),
    }
}

/// A whole option list folded into the running mode, stopping at the first
/// error.
pub open spec fn spec_field_options_fold(st: ModeView, opts: Seq<OptionExprView>) -> Result<
    ModeView,
    Seq<char>,
>
    decreases opts.len(),
{
    if opts.len() == 0 {
        Ok(st)
    } else {
        match spec_field_next(st, opts[0]) {
            Ok(st2) => spec_field_options_fold(st2, opts.drop_first()),
            Err(m) => Err(m),
        }
    }
}

/// One annotation applied to the running mode.  An annotation outside the
/// reserved namespace changes nothing and never fails; a reserved one must
/// carry a parenthesised option list.
pub open spec fn spec_field_annotation_step(st: ModeView, a: AnnotationView) -> Result<
    ModeView,
    DiagnosticView,
> {
    if a.name != spec_reserved_name() {
        Ok(st)
    } else {
        match a.args {
            ArgsView::List(tokens) => match parsed_options(tokens) {
                Ok(opts) => match spec_field_options_fold(st, opts) {
                    Ok(st2) => Ok(st2),
                    Err(m) => Err(DiagnosticView { span: a.span, message: m }),
                },
                Err(m) => Err(
                    DiagnosticView { span: a.span, message: must_contain_group_message(m) },
                ),
            },
            ArgsView::Empty => Err(
                DiagnosticView {
                    span: a.span,
                    message: must_contain_group_message(bare_annotation_detail()),
                },
            ),
            ArgsView::Value(_) => Err(
                DiagnosticView {
                    span: a.span,
                    message: must_contain_group_message(value_annotation_detail()),
                },
            ),
        }
    }
}

/// The whole annotation list of one field folded left to right, stopping
/// at the first error.
pub open spec fn spec_field_fold(st: ModeView, anns: Seq<AnnotationView>) -> Result<
    ModeView,
    DiagnosticView,
>
    decreases anns.len(),
{
    if anns.len() == 0 {
        Ok(st)
    } else {
        match spec_field_annotation_step(st, anns[0]) {
            Ok(st2) => spec_field_fold(st2, anns.drop_first()),
            Err(d) => Err(d),
        }
    }
}

/// Determines how a value for a field is constructed, as chosen by the
/// field's annotations.
#[derive(Debug, PartialEq, Eq, Clone)]
pub enum FieldAttributes {
    /// Invoke the general-purpose arbitrary-value constructor for the
    /// field's declared type (the initial mode).
    UseDefaultTrait,
    /// Invoke the type's own zero-value constructor, `Default::default()`.
    UseTypeDefault,
    /// Invoke a user-supplied callable, kept verbatim, with the value
    /// source.
    UseCustomExpression(String),
    /// Splice a user-supplied fragment in as the field's value.
    UseFixedValue(String),
}

impl View for FieldAttributes {
    type V = ModeView;

    open spec fn view(&self) -> ModeView {
        match self {
            FieldAttributes::UseDefaultTrait => ModeView::UseDefaultTrait,
            FieldAttributes::UseTypeDefault => ModeView::UseTypeDefault,
            FieldAttributes::UseCustomExpression(f) => ModeView::UseCustomExpression(f@),
            FieldAttributes::UseFixedValue(v) => ModeView::UseFixedValue(v@),
        }
    }
}

impl DeepView for FieldAttributes {
    type V = ModeView;

    open spec fn deep_view(&self) -> ModeView {
        self.view()
    }
}

/// The view of a fold result, for stating contracts.
pub open spec fn field_result_view(r: Result<FieldAttributes, Diagnostic>) -> Result<
    ModeView,
    DiagnosticView,
> {
    match r {
        Ok(m) => Ok(m@),
        Err(d) => Err(d@),
    }
}

/// The view of an option-step result, for stating contracts.
pub open spec fn field_state_result_view(r: Result<FieldAttributes, String>) -> Result<
    ModeView,
    Seq<char>,
> {
    match r {
        Ok(m) => Ok(m@),
        Err(s) => Err(s@),
    }
}

impl Default for FieldAttributes {
    /// The mode of a field before any annotation was read.
    fn default() -> (r: FieldAttributes)
        ensures
            r@ == ModeView::UseDefaultTrait,
    {
        FieldAttributes::UseDefaultTrait
    }
}

impl FieldAttributes {
    /// Apply the next option to the running mode.
    pub fn next(self, e: &OptionExpr) -> (r: Result<FieldAttributes, String>)
        ensures
            field_state_result_view(r) == spec_field_next(self@, e@),
    {
        match OptionName::find(&e.name) {
            Option::None => Err(unknown_field_option_error(&e.name)),
            Option::Some(tag) => match self {
                FieldAttributes::UseDefaultTrait => match FieldOption::parse(e) {
                    Ok(FieldOption::TypeDefault) => Ok(FieldAttributes::UseTypeDefault),
                    Ok(FieldOption::With(f)) => Ok(FieldAttributes::UseCustomExpression(f)),
                    Ok(FieldOption::Value(v)) => Ok(FieldAttributes::UseFixedValue(v)),
                    Err(m) => Err(m),
                },
                previous => Err(conflict_error(previous.as_str(), tag.as_str())),
            },
        }
    }

    /// Fold every annotation of one field, in written order, into one
    /// mode; the first error aborts the fold.
    #[verifier::loop_isolation(false)]
    pub fn from_annotations(anns: &Vec<Annotation>) -> (r: Result<FieldAttributes, Diagnostic>)
        ensures
            field_result_view(r) == spec_field_fold(ModeView::UseDefaultTrait, anns.deep_view()),
    {
        let ghost anns_view: Seq<AnnotationView> = anns.deep_view();
        let mut st = FieldAttributes::default();
        let mut i: usize = 0;
        proof {
            assert(anns_view.skip(0) =~= anns_view);
        }
        while i < anns.len()
            invariant
                i <= anns.len(),
                spec_field_fold(ModeView::UseDefaultTrait, anns_view) == spec_field_fold(
                    st@,
                    anns_view.skip(i as int),
                ),
            decreases anns.len() - i,
        {
            let ghost before: ModeView = st@;
            let step = st.next_attribute(&anns[i]);
            proof {
                assert(anns_view.skip(i as int)[0] == anns_view[i as int]);
                assert(anns_view.skip(i as int).drop_first() =~= anns_view.skip(i as int + 1));
            }
            match step {
                Ok(st2) => {
                    st = st2;
                },
                Err(d) => {
                    proof {
                        let sk = anns_view.skip(i as int);
                        assert(spec_field_annotation_step(before, sk[0]) == Err::<
                            ModeView,
                            DiagnosticView,
                        >(d@));
                        assert(spec_field_fold(before, sk) == Err::<ModeView, DiagnosticView>(d@));
                    }
                    return Err(d);
                },
            }
            i = i + 1;
        }
        proof {
            assert(anns_view.skip(anns_view.len() as int) =~= Seq::<AnnotationView>::empty());
        }
        Ok(st)
    }

    /// Process one annotation; one outside the reserved namespace is
    /// skipped silently.
    #[verifier::loop_isolation(false)]
    pub fn next_attribute(self, a: &Annotation) -> (r: Result<FieldAttributes, Diagnostic>)
        ensures
            field_result_view(r) == spec_field_annotation_step(self@, a@),
    {
        match AttributeName::find(&a.name) {
            Option::None => Ok(self),
            Option::Some(AttributeName::Arbitrary) => match &a.args {
                AnnotationArgs::List(tokens) => match parse_option_list(tokens.as_str()) {
                    Ok(opts) => {
                        let ghost st0: ModeView = self@;
                        let ghost opts_view: Seq<OptionExprView> = opts.deep_view();
                        let mut st = self;
                        let mut i: usize = 0;
                        proof {
                            assert(opts_view.skip(0) =~= opts_view);
                        }
                        while i < opts.len()
                            invariant
                                i <= opts.len(),
                                spec_field_options_fold(st0, opts_view) == spec_field_options_fold(
                                    st@,
                                    opts_view.skip(i as int),
                                ),
                            decreases opts.len() - i,
                        {
                            let ghost before: ModeView = st@;
                            let step = st.next(&opts[i]);
                            proof {
                                assert(opts_view.skip(i as int)[0] == opts_view[i as int]);
                                assert(opts_view.skip(i as int).drop_first() =~= opts_view.skip(
                                    i as int + 1,
                                ));
                            }
                            match step {
                                Ok(st2) => {
                                    st = st2;
                                },
                                Err(m) => {
                                    proof {
                                        let sk = opts_view.skip(i as int);
                                        assert(spec_field_next(before, sk[0]) == Err::<
                                            ModeView,
                                            Seq<char>,
                                        >(m@));
                                        assert(spec_field_options_fold(before, sk) == Err::<
                                            ModeView,
                                            Seq<char>,
                                        >(m@));
                                    }
                                    return Err(Diagnostic::new(a.span, m));
                                },
                            }
                            i = i + 1;
                        }
                        proof {
                            assert(opts_view.skip(opts_view.len() as int) =~= Seq::<
                                OptionExprView,
                            >::empty());
                        }
                        Ok(st)
                    },
                    Err(m) => Err(Diagnostic::new(a.span, must_contain_group_error(m.as_str()))),
                },
                AnnotationArgs::Empty => Err(
                    Diagnostic::new(
                        a.span,
                        must_contain_group_error(
                            "expected attribute arguments in parentheses: #[arbitrary(...)]",
                        ),
                    ),
                ),
                AnnotationArgs::Value(_) => Err(
                    Diagnostic::new(
                        a.span,
                        must_contain_group_error("expected parentheses: #[arbitrary(...)]"),
                    ),
                ),
            },
        }
    }

    /// Generate the construction expression for this mode, with `u` as the
    /// value-source fragment.
    pub fn generate_constructor(self, u: &str) -> (r: String)
        ensures
            r@ == spec_constructor_text(self@, u@),
    {
        let c = self.constructor();
        c.generate_constructor(u)
    }

    /// Generate the construction expression for the last field of a
    /// structure, which consumes the remaining input whole.
    pub fn generate_constructor_take_rest(self) -> (r: String)
        ensures
            r@ == spec_constructor_take_rest_text(self@),
    {
        let c = self.constructor();
        c.generate_constructor_take_rest()
    }

    /// Generate the size-hint expression for this mode, for a field of
    /// declared type `ty`.
    pub fn generate_size_hint(self, ty: &str) -> (r: String)
        ensures
            r@ == spec_size_hint_text(self@, ty@),
    {
        let c = self.constructor();
        c.generate_size_hint(ty)
    }

    /// The same mode as a [`FieldConstructor`] configuration value.
    pub fn constructor(self) -> (r: FieldConstructor)
        ensures
            r@ == self@,
    {
        match self {
            FieldAttributes::UseDefaultTrait => FieldConstructor::UseDefaultTrait,
            FieldAttributes::UseTypeDefault => FieldConstructor::UseTypeDefault,
            FieldAttributes::UseCustomExpression(f) => FieldConstructor::UseCustomExpression(f),
            FieldAttributes::UseFixedValue(v) => FieldConstructor::UseFixedValue(v),
        }
    }

    /// The option name that chose this mode, as conflict diagnostics cite
    /// it; empty for the initial mode.
    pub fn as_str(&self) -> (r: &'static str)
        ensures
            r@ == spec_mode_text(self@),
    {
        match self {
            FieldAttributes::UseDefaultTrait => "",
            FieldAttributes::UseTypeDefault => "default",
            FieldAttributes::UseCustomExpression(_) => "with",
            FieldAttributes::UseFixedValue(_) => "value",
        }
    }
}

} // verus!
