//! The laws the three pipelines obey, stated over the same spec functions
//! that the executable functions' contracts use.

use vstd::prelude::*;
use crate::ast::{AnnotationView, ArgsView, DiagnosticView, OptionExprView, ShapeView};
use crate::container::{
    spec_container_annotation_step, spec_container_fold, spec_container_options_fold,
    spec_merge_bounds, ContainerAttributesView,
};
use crate::field::{
    conflict_message, spec_field_annotation_step, spec_field_fold, spec_field_options_fold,
};
use crate::field_constructor::{spec_constructor_text, spec_size_hint_text, ModeView};
use crate::names::spec_reserved_name;
use crate::syntax::{parsed_bound_list, parsed_options, string_literal_value};
use crate::variant::{spec_annotation_skips, spec_skipped};

verus! {

broadcast use vstd::string::group_string_axioms;

/// Ignoring law, one step: an annotation outside the reserved namespace
/// never fails the container pipeline and never affects the configuration.
pub proof fn lemma_container_step_ignores_foreign(
    st: ContainerAttributesView,
    a: AnnotationView,
)
    requires
        a.name != spec_reserved_name(),
    ensures
        spec_container_annotation_step(st, a) == Ok::<ContainerAttributesView, DiagnosticView>(st),
{
}

/// Ignoring law, container pipeline: inserting an annotation outside the
/// reserved namespace anywhere in the list leaves the whole fold — result
/// or diagnostic — unchanged.
pub proof fn lemma_container_fold_ignores_foreign(
    st: ContainerAttributesView,
    anns: Seq<AnnotationView>,
    i: int,
    a: AnnotationView,
)
    requires
        0 <= i <= anns.len(),
        a.name != spec_reserved_name(),
    ensures
        spec_container_fold(st, anns.insert(i, a)) == spec_container_fold(st, anns),
    decreases anns.len(),
{
    let with = anns.insert(i, a);
    if i == 0 {
        assert(with[0] == a);
        assert(with.drop_first() =~= anns);
    } else {
        assert(with[0] == anns[0]);
        assert(with.drop_first() =~= anns.drop_first().insert(i - 1, a));
        match spec_container_annotation_step(st, anns[0]) {
            Ok(st2) => {
                lemma_container_fold_ignores_foreign(st2, anns.drop_first(), i - 1, a);
            },
            Err(_) => {
            },
        }
    }
}

/// Ignoring law, one step: an annotation outside the reserved namespace
/// never fails the field pipeline and never affects the chosen mode.
pub proof fn lemma_field_step_ignores_foreign(st: ModeView, a: AnnotationView)
    requires
        a.name != spec_reserved_name(),
    ensures
        spec_field_annotation_step(st, a) == Ok::<ModeView, DiagnosticView>(st),
{
}

/// Ignoring law, field pipeline: inserting an annotation outside the
/// reserved namespace anywhere in the list leaves the whole fold — result
/// or diagnostic — unchanged.
pub proof fn lemma_field_fold_ignores_foreign(
    st: ModeView,
    anns: Seq<AnnotationView>,
    i: int,
    a: AnnotationView,
)
    requires
        0 <= i <= anns.len(),
        a.name != spec_reserved_name(),
    ensures
        spec_field_fold(st, anns.insert(i, a)) == spec_field_fold(st, anns),
    decreases anns.len(),
{
    let with = anns.insert(i, a);
    if i == 0 {
        assert(with[0] == a);
        assert(with.drop_first() =~= anns);
    } else {
        assert(with[0] == anns[0]);
        assert(with.drop_first() =~= anns.drop_first().insert(i - 1, a));
        match spec_field_annotation_step(st, anns[0]) {
            Ok(st2) => {
                lemma_field_fold_ignores_foreign(st2, anns.drop_first(), i - 1, a);
            },
            Err(_) => {
            },
        }
    }
}

/// Ignoring law, variant pipeline: an annotation outside the reserved
/// namespace never affects whether the variant is skipped, and the check
/// cannot fail on any input.
pub proof fn lemma_variant_ignores_foreign(anns: Seq<AnnotationView>, i: int, a: AnnotationView)
    requires
        0 <= i <= anns.len(),
        a.name != spec_reserved_name(),
    ensures
        spec_skipped(anns.insert(i, a)) == spec_skipped(anns),
{
    let with = anns.insert(i, a);
    assert(!spec_annotation_skips(a));
    if spec_skipped(anns) {
        let j = choose|j: int| 0 <= j < anns.len() && spec_annotation_skips(anns[j]);
        let k: int = if j < i {
            j
        } else {
            j + 1
        };
        assert(with[k] == anns[j]);
        assert(spec_skipped(with));
    }
    if spec_skipped(with) {
        let j = choose|j: int| 0 <= j < with.len() && spec_annotation_skips(with[j]);
        assert(with[i] == a);
        assert(j != i);
        let k: int = if j < i {
            j
        } else {
            j - 1
        };
        assert(anns[k] == with[j]);
        assert(spec_skipped(anns));
    }
}

/// Accumulation law: a well-formed `bound = "..."` annotation appends its
/// declarations to the running set — a first occurrence populates it, a
/// repetition yields the union of both occurrences, with duplication,
/// never a conflict error.
pub proof fn lemma_bound_accumulates(
    st: ContainerAttributesView,
    a: AnnotationView,
    tokens: Seq<char>,
    value: Seq<char>,
    content: Seq<char>,
    decls: Seq<Seq<char>>,
)
    requires
        a.name == spec_reserved_name(),
        a.args == ArgsView::List(tokens),
        parsed_options(tokens) == Ok::<Seq<OptionExprView>, Seq<char>>(
            seq![OptionExprView { name: "bound"@, shape: ShapeView::Assign(value) }],
        ),
        string_literal_value(value) == Some(content),
        parsed_bound_list(content) == Ok::<Seq<Seq<char>>, Seq<char>>(decls),
    ensures
        spec_container_annotation_step(st, a) == Ok::<ContainerAttributesView, DiagnosticView>(
            spec_merge_bounds(st, decls),
        ),
        spec_container_fold(
            ContainerAttributesView { bounds: None::<Seq<Seq<char>>> },
            seq![a, a],
        ) == Ok::<ContainerAttributesView, DiagnosticView>(
            ContainerAttributesView { bounds: Some(decls + decls) },
        ),
{
    reveal_with_fuel(spec_container_options_fold, 3);
    reveal_with_fuel(spec_container_fold, 4);
    let e = OptionExprView { name: "bound"@, shape: ShapeView::Assign(value) };
    let opts = seq![e];
    assert(opts.drop_first() =~= Seq::<OptionExprView>::empty());
    let two = seq![a, a];
    assert(two[0] == a);
    assert(two.drop_first() =~= seq![a]);
    assert(seq![a].drop_first() =~= Seq::<AnnotationView>::empty());
    let st0 = ContainerAttributesView { bounds: None::<Seq<Seq<char>>> };
    assert(spec_merge_bounds(st0, decls) == ContainerAttributesView { bounds: Some(decls) });
    assert(spec_merge_bounds(ContainerAttributesView { bounds: Some(decls) }, decls)
        == ContainerAttributesView { bounds: Some(decls + decls) });
}

/// The bare `default` option expression.
pub open spec fn default_option_expr() -> OptionExprView {
    OptionExprView { name: "default"@, shape: ShapeView::Bare }
}

/// The `with = <fragment>` option expression.
pub open spec fn with_option_expr(fragment: Seq<char>) -> OptionExprView {
    OptionExprView { name: "with"@, shape: ShapeView::Assign(fragment) }
}

/// Conflict law: on one field, `default` followed by `with = ...` fails
/// with a conflict diagnostic naming `default` as the prior choice, and
/// the reverse order fails naming `with` — order-sensitive, symmetric
/// failure, decided before any shape check.
pub proof fn lemma_conflict_is_order_sensitive(fragment: Seq<char>)
    ensures
        spec_field_options_fold(
            ModeView::UseDefaultTrait,
            seq![default_option_expr(), with_option_expr(fragment)],
        ) == Err::<ModeView, Seq<char>>(conflict_message("default"@, "with"@)),
        spec_field_options_fold(
            ModeView::UseDefaultTrait,
            seq![with_option_expr(fragment), default_option_expr()],
        ) == Err::<ModeView, Seq<char>>(conflict_message("with"@, "default"@)),
{
    reveal_with_fuel(spec_field_options_fold, 3);
    reveal_strlit("default");
    reveal_strlit("with");
    reveal_strlit("value");
    let d = default_option_expr();
    let w = with_option_expr(fragment);
    assert("default"@.len() == 7);
    assert("with"@.len() == 4);
    assert("value"@.len() == 5);
    assert("default"@ != "with"@);
    assert("with"@ != "value"@);
    let first = seq![d, w];
    assert(first[0] == d);
    assert(first.drop_first() =~= seq![w]);
    assert(seq![w].drop_first() =~= Seq::<OptionExprView>::empty());
    let second = seq![w, d];
    assert(second[0] == w);
    assert(second.drop_first() =~= seq![d]);
    assert(seq![d].drop_first() =~= Seq::<OptionExprView>::empty());
}

/// Conflict law across separate annotations: a `default` annotation
/// followed by a `with = ...` annotation on the same field conflicts just
/// as two options inside one annotation do, and the diagnostic points at
/// the later annotation.
pub proof fn lemma_conflict_across_annotations(
    a1: AnnotationView,
    a2: AnnotationView,
    tokens1: Seq<char>,
    tokens2: Seq<char>,
    fragment: Seq<char>,
)
    requires
        a1.name == spec_reserved_name(),
        a1.args == ArgsView::List(tokens1),
        parsed_options(tokens1) == Ok::<Seq<OptionExprView>, Seq<char>>(
            seq![default_option_expr()],
        ),
        a2.name == spec_reserved_name(),
        a2.args == ArgsView::List(tokens2),
        parsed_options(tokens2) == Ok::<Seq<OptionExprView>, Seq<char>>(
            seq![with_option_expr(fragment)],
        ),
    ensures
        spec_field_fold(ModeView::UseDefaultTrait, seq![a1, a2]) == Err::<
            ModeView,
            DiagnosticView,
        >(
            DiagnosticView {
                span: a2.span,
                message: conflict_message("default"@, "with"@),
            },
        ),
{
    reveal_with_fuel(spec_field_options_fold, 3);
    reveal_with_fuel(spec_field_fold, 4);
    reveal_strlit("default");
    reveal_strlit("with");
    reveal_strlit("value");
    assert("default"@.len() == 7);
    assert("with"@.len() == 4);
    assert("value"@.len() == 5);
    assert("default"@ != "with"@);
    assert("with"@ != "value"@);
    let d = default_option_expr();
    let w = with_option_expr(fragment);
    assert(seq![d].drop_first() =~= Seq::<OptionExprView>::empty());
    assert(seq![w].drop_first() =~= Seq::<OptionExprView>::empty());
    let two = seq![a1, a2];
    assert(two[0] == a1);
    assert(two.drop_first() =~= seq![a2]);
    assert(seq![a2].drop_first() =~= Seq::<AnnotationView>::empty());
    assert(spec_field_annotation_step(ModeView::UseDefaultTrait, a1) == Ok::<
        ModeView,
        DiagnosticView,
    >(ModeView::UseTypeDefault));
}

/// Default law: a field with no reserved annotation keeps the initial
/// mode, whose construction expression is the general-purpose
/// arbitrary-value constructor call and whose size hint delegates to the
/// field's declared type.
pub proof fn lemma_unannotated_field_uses_default_trait(
    anns: Seq<AnnotationView>,
    u: Seq<char>,
    ty: Seq<char>,
)
    requires
        forall|i: int| 0 <= i < anns.len() ==> anns[i].name != spec_reserved_name(),
    ensures
        spec_field_fold(ModeView::UseDefaultTrait, anns) == Ok::<ModeView, DiagnosticView>(
            ModeView::UseDefaultTrait,
        ),
        spec_constructor_text(ModeView::UseDefaultTrait, u)
            == "arbitrary::Arbitrary::arbitrary("@ + u + ")?"@,
        spec_size_hint_text(ModeView::UseDefaultTrait, ty)
            == "<"@ + ty + " as arbitrary::Arbitrary>::size_hint(depth)"@,
    decreases anns.len(),
{
    if anns.len() > 0 {
        assert(anns[0].name != spec_reserved_name());
        lemma_unannotated_field_uses_default_trait(anns.drop_first(), u, ty);
    }
}

} // verus!
