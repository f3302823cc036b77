use arbitrary_attributes::ast::{Annotation, AnnotationArgs};
use arbitrary_attributes::variant::VariantAttributes;

fn list_ann(span: u64, name: &str, tokens: &str) -> Annotation {
    Annotation {
        span,
        name: String::from(name),
        args: AnnotationArgs::List(String::from(tokens)),
    }
}

#[test]
fn skip_marks_the_variant_as_skipped() {
    let anns = vec![list_ann(1, "arbitrary", "skip")];
    assert!(VariantAttributes::should_skip(&anns));
    assert!(!VariantAttributes::not_skipped(&anns));
}

#[test]
fn no_annotations_means_not_skipped() {
    let anns: Vec<Annotation> = Vec::new();
    assert!(VariantAttributes::not_skipped(&anns));
}

#[test]
fn malformed_skip_is_silently_not_a_skip() {
    let anns = vec![list_ann(1, "arbitrary", "skip = \"x\"")];
    assert!(VariantAttributes::not_skipped(&anns));
}

#[test]
fn skip_with_a_group_is_not_a_skip() {
    let anns = vec![list_ann(1, "arbitrary", "skip(now)")];
    assert!(VariantAttributes::not_skipped(&anns));
}

#[test]
fn skip_among_other_tokens_is_not_a_skip() {
    let anns = vec![list_ann(1, "arbitrary", "skip, default")];
    assert!(VariantAttributes::not_skipped(&anns));
}

#[test]
fn skip_on_an_unrelated_annotation_is_ignored() {
    let anns = vec![list_ann(1, "serde", "skip")];
    assert!(VariantAttributes::not_skipped(&anns));
}

#[test]
fn bare_reserved_annotation_is_not_a_skip() {
    let anns = vec![Annotation {
        span: 1,
        name: String::from("arbitrary"),
        args: AnnotationArgs::Empty,
    }];
    assert!(VariantAttributes::not_skipped(&anns));
}

#[test]
fn any_one_skip_annotation_wins() {
    let anns = vec![
        list_ann(1, "serde", "rename = \"x\""),
        list_ann(2, "arbitrary", "skip = \"x\""),
        list_ann(3, "arbitrary", "skip"),
    ];
    assert!(VariantAttributes::should_skip(&anns));
}
