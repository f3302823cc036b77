use arbitrary_attributes::ast::{Annotation, AnnotationArgs, OptionExpr, OptionShape};
use arbitrary_attributes::container::ContainerAttributes;
use arbitrary_attributes::container_options::{ContainerOption, OptionName};

fn list_ann(span: u64, name: &str, tokens: &str) -> Annotation {
    Annotation {
        span,
        name: String::from(name),
        args: AnnotationArgs::List(String::from(tokens)),
    }
}

#[test]
fn no_annotations_leaves_bounds_unset() {
    let anns: Vec<Annotation> = Vec::new();
    let attrs = ContainerAttributes::from_annotations(&anns).unwrap();
    assert_eq!(attrs.bounds, None);
}

#[test]
fn unrelated_annotations_are_skipped() {
    let anns = vec![
        Annotation { span: 1, name: String::from("derive"), args: AnnotationArgs::Empty },
        list_ann(2, "serde", "rename = \"x\""),
    ];
    let attrs = ContainerAttributes::from_annotations(&anns).unwrap();
    assert_eq!(attrs.bounds, None);
}

#[test]
fn one_bound_populates_the_set() {
    let anns = vec![list_ann(1, "arbitrary", "bound = \"T: Default\"")];
    let attrs = ContainerAttributes::from_annotations(&anns).unwrap();
    let bounds = attrs.bounds.unwrap();
    assert_eq!(bounds.len(), 1);
    assert_eq!(bounds[0], "T : Default");
}

#[test]
fn repeated_bound_annotations_accumulate() {
    let anns = vec![
        list_ann(1, "arbitrary", "bound = \"T: Default\""),
        list_ann(2, "arbitrary", "bound = \"U: Clone\""),
    ];
    let attrs = ContainerAttributes::from_annotations(&anns).unwrap();
    let bounds = attrs.bounds.unwrap();
    assert_eq!(bounds.len(), 2);
    assert_eq!(bounds[0], "T : Default");
    assert_eq!(bounds[1], "U : Clone");
}

#[test]
fn repeating_the_same_bound_keeps_duplicates() {
    let anns = vec![
        list_ann(1, "arbitrary", "bound = \"T: Default\""),
        list_ann(2, "arbitrary", "bound = \"T: Default\""),
    ];
    let attrs = ContainerAttributes::from_annotations(&anns).unwrap();
    let bounds = attrs.bounds.unwrap();
    assert_eq!(bounds.len(), 2);
    assert_eq!(bounds[0], bounds[1]);
}

#[test]
fn one_annotation_with_a_bound_list_splits_declarations() {
    let anns = vec![list_ann(1, "arbitrary", "bound = \"T: Default, U: Clone + Send\"")];
    let attrs = ContainerAttributes::from_annotations(&anns).unwrap();
    let bounds = attrs.bounds.unwrap();
    assert_eq!(bounds.len(), 2);
    assert_eq!(bounds[0], "T : Default");
    assert_eq!(bounds[1], "U : Clone + Send");
}

#[test]
fn unknown_container_option_lists_bound() {
    let anns = vec![list_ann(3, "arbitrary", "frobnicate")];
    let err = ContainerAttributes::from_annotations(&anns).unwrap_err();
    assert_eq!(err.span, 3);
    assert_eq!(
        err.message,
        "Unknown option for `#[arbitrary]`: `frobnicate`. Known options for container attributes are: [\"bound\"]"
    );
}

#[test]
fn bare_reserved_annotation_needs_parentheses() {
    let anns = vec![Annotation {
        span: 8,
        name: String::from("arbitrary"),
        args: AnnotationArgs::Empty,
    }];
    let err = ContainerAttributes::from_annotations(&anns).unwrap_err();
    assert_eq!(err.span, 8);
    assert_eq!(
        err.message,
        "expected attribute arguments in parentheses: `arbitrary(...)`"
    );
}

#[test]
fn assigned_reserved_annotation_needs_parentheses() {
    let anns = vec![Annotation {
        span: 8,
        name: String::from("arbitrary"),
        args: AnnotationArgs::Value(String::from("x")),
    }];
    let err = ContainerAttributes::from_annotations(&anns).unwrap_err();
    assert_eq!(err.message, "expected `(`");
}

#[test]
fn bound_without_a_string_literal_is_rejected() {
    let anns = vec![list_ann(1, "arbitrary", "bound = 42")];
    let err = ContainerAttributes::from_annotations(&anns).unwrap_err();
    assert_eq!(
        err.message,
        "Could not parse option `bound` of `#[arbitrary]` container attribute: Expected `bound = \"$($param: $bounds),*\"`"
    );
}

#[test]
fn bound_with_an_unparseable_list_reports_both_messages() {
    let anns = vec![list_ann(1, "arbitrary", "bound = \"17 squirrels\"")];
    let err = ContainerAttributes::from_annotations(&anns).unwrap_err();
    assert!(err.message.starts_with(
        "Could not parse option `bound` of `#[arbitrary]` container attribute: "
    ));
    assert!(err.message.ends_with(". Expected `bound = \"$($param: $bounds),*\"`"));
}

#[test]
fn bound_as_a_bare_option_is_malformed() {
    let anns = vec![list_ann(1, "arbitrary", "bound")];
    let err = ContainerAttributes::from_annotations(&anns).unwrap_err();
    assert_eq!(err.message, "expected a value for this attribute: `bound = ...`");
}

#[test]
fn bound_as_a_group_is_malformed() {
    let anns = vec![list_ann(1, "arbitrary", "bound(T)")];
    let err = ContainerAttributes::from_annotations(&anns).unwrap_err();
    assert_eq!(err.message, "expected `=`");
}

#[test]
fn error_points_at_the_offending_annotation() {
    let anns = vec![
        list_ann(10, "arbitrary", "bound = \"T: Default\""),
        list_ann(20, "arbitrary", "frobnicate"),
    ];
    let err = ContainerAttributes::from_annotations(&anns).unwrap_err();
    assert_eq!(err.span, 20);
}

#[test]
fn container_option_parses_a_bound_directly() {
    let e = OptionExpr {
        name: String::from("bound"),
        shape: OptionShape::Assign(String::from("\"T: Default\"")),
    };
    let ContainerOption::Bound(decls) = ContainerOption::parse(&e).unwrap();
    assert_eq!(decls, vec![String::from("T : Default")]);
}

#[test]
fn container_option_table_matches_recognition() {
    let names = OptionName::all_names();
    assert_eq!(names, vec!["bound"]);
    assert!(OptionName::find(&String::from("bound")).is_some());
    assert!(OptionName::find(&String::from("bounds")).is_none());
}

#[test]
fn unparseable_option_list_is_an_error_at_the_annotation() {
    let anns = vec![list_ann(6, "arbitrary", "= = =")];
    let err = ContainerAttributes::from_annotations(&anns).unwrap_err();
    assert_eq!(err.span, 6);
    assert!(!err.message.is_empty());
}

#[test]
fn recognition_is_case_sensitive() {
    let anns = vec![list_ann(1, "Arbitrary", "bound = \"T: Default\"")];
    let attrs = ContainerAttributes::from_annotations(&anns).unwrap();
    assert_eq!(attrs.bounds, None);
}

#[test]
fn an_empty_bound_string_still_populates_the_set() {
    let anns = vec![list_ann(1, "arbitrary", "bound = \"\"")];
    let attrs = ContainerAttributes::from_annotations(&anns).unwrap();
    assert_eq!(attrs.bounds, Some(Vec::new()));
}

#[test]
fn container_default_is_empty() {
    let attrs: ContainerAttributes = Default::default();
    assert_eq!(attrs.bounds, None);
}
