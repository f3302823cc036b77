//! The data that the three pipelines read: annotations as the user wrote
//! them, the option expressions found inside a recognised annotation's
//! argument list, and the diagnostics handed back on failure.

use vstd::prelude::*;

verus! {

/// The argument part of an annotation, exactly as it was written.
///
/// The tokens inside a parenthesised list are kept verbatim; which option
/// expressions they form is decided later, by the pipeline that reads them.
#[derive(Debug, PartialEq, Eq, Clone)]
pub enum AnnotationArgs {
    /// `#[name]` — no arguments at all.
    Empty,
    /// `#[name = <tokens>]` — a single value, captured verbatim.
    Value(String),
    /// `#[name(<tokens>)]` — a parenthesised argument list, captured verbatim.
    List(String),
}

/// One annotation attached to a container, field or variant.
///
/// `span` is an opaque tag chosen by the caller; the library never interprets
/// it and only copies it into the [`Diagnostic`] that points back at the
/// offending annotation.
#[derive(Debug, PartialEq, Eq, Clone)]
pub struct Annotation {
    pub span: u64,
    pub name: String,
    pub args: AnnotationArgs,
}

/// The three syntactic shapes an option expression can take.
#[derive(Debug, PartialEq, Eq, Clone)]
pub enum OptionShape {
    /// A bare name: `skip`, `default`.
    Bare,
    /// `name = <tokens>` — the right-hand side captured verbatim.
    Assign(String),
    /// `name(<tokens>)` — the inner tokens captured verbatim.
    Group(String),
}

/// One option expression inside a recognised annotation's argument list.
#[derive(Debug, PartialEq, Eq, Clone)]
pub struct OptionExpr {
    pub name: String,
    pub shape: OptionShape,
}

/// A structured compile-time error: a message and the span tag of the
/// annotation it belongs to.
#[derive(Debug, PartialEq, Eq, Clone)]
pub struct Diagnostic {
    pub span: u64,
    pub message: String,
}

/// Mathematical image of [`AnnotationArgs`].
pub enum ArgsView {
    Empty,
    Value(Seq<char>),
    List(Seq<char>),
}

/// Mathematical image of [`Annotation`].
pub struct AnnotationView {
    pub span: u64,
    pub name: Seq<char>,
    pub args: ArgsView,
}

/// Mathematical image of [`OptionShape`].
pub enum ShapeView {
    Bare,
    Assign(Seq<char>),
    Group(Seq<char>),
}

/// Mathematical image of [`OptionExpr`].
pub struct OptionExprView {
    pub name: Seq<char>,
    pub shape: ShapeView,
}

/// Mathematical image of [`Diagnostic`].
pub struct DiagnosticView {
    pub span: u64,
    pub message: Seq<char>,
}

impl View for AnnotationArgs {
    type V = ArgsView;

    open spec fn view(&self) -> ArgsView {
        match self {
            AnnotationArgs::Empty => ArgsView::Empty,
            AnnotationArgs::Value(v) => ArgsView::Value(v@),
            AnnotationArgs::List(t) => ArgsView::List(t@),
        }
    }
}

impl DeepView for AnnotationArgs {
    type V = ArgsView;

    open spec fn deep_view(&self) -> ArgsView {
        self.view()
    }
}

impl View for Annotation {
    type V = AnnotationView;

    open spec fn view(&self) -> AnnotationView {
        AnnotationView { span: self.span, name: self.name@, args: self.args@ }
    }
}

impl DeepView for Annotation {
    type V = AnnotationView;

    open spec fn deep_view(&self) -> AnnotationView {
        self.view()
    }
}

impl View for OptionShape {
    type V = ShapeView;

    open spec fn view(&self) -> ShapeView {
        match self {
            OptionShape::Bare => ShapeView::Bare,
            OptionShape::Assign(v) => ShapeView::Assign(v@),
            OptionShape::Group(t) => ShapeView::Group(t@),
        }
    }
}

impl DeepView for OptionShape {
    type V = ShapeView;

    open spec fn deep_view(&self) -> ShapeView {
        self.view()
    }
}

impl View for OptionExpr {
    type V = OptionExprView;

    open spec fn view(&self) -> OptionExprView {
        OptionExprView { name: self.name@, shape: self.shape@ }
    }
}

impl DeepView for OptionExpr {
    type V = OptionExprView;

    open spec fn deep_view(&self) -> OptionExprView {
        self.view()
    }
}

impl View for Diagnostic {
    type V = DiagnosticView;

    open spec fn view(&self) -> DiagnosticView {
        DiagnosticView { span: self.span, message: self.message@ }
    }
}

impl DeepView for Diagnostic {
    type V = DiagnosticView;

    open spec fn deep_view(&self) -> DiagnosticView {
        self.view()
    }
}

impl Diagnostic {
    /// Build a diagnostic for the annotation tagged `span`.
    pub fn new(span: u64, message: String) -> (r: Diagnostic)
        ensures
            r@ == (DiagnosticView { span, message: message@ }),
    {
        Diagnostic { span, message }
    }
}

} // verus!
