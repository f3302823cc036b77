use arbitrary_attributes::ast::{Annotation, AnnotationArgs, OptionExpr, OptionShape};
use arbitrary_attributes::field::FieldAttributes;
use arbitrary_attributes::field_constructor::FieldConstructor;
use arbitrary_attributes::field_options::{FieldOption, OptionName};

fn list_ann(span: u64, name: &str, tokens: &str) -> Annotation {
    Annotation {
        span,
        name: String::from(name),
        args: AnnotationArgs::List(String::from(tokens)),
    }
}

fn bare_ann(span: u64, name: &str) -> Annotation {
    Annotation { span, name: String::from(name), args: AnnotationArgs::Empty }
}

#[test]
fn unannotated_field_uses_default_trait() {
    let anns: Vec<Annotation> = Vec::new();
    let mode = FieldAttributes::from_annotations(&anns).unwrap();
    assert_eq!(mode, FieldAttributes::UseDefaultTrait);
    assert_eq!(
        mode.generate_constructor("u"),
        "arbitrary::Arbitrary::arbitrary(u)?"
    );
}

#[test]
fn unrelated_annotations_are_ignored() {
    let anns = vec![
        bare_ann(1, "serde"),
        list_ann(2, "doc", "hidden"),
        Annotation {
            span: 3,
            name: String::from("cfg_attr"),
            args: AnnotationArgs::Value(String::from("test")),
        },
    ];
    let mode = FieldAttributes::from_annotations(&anns).unwrap();
    assert_eq!(mode, FieldAttributes::UseDefaultTrait);
}

#[test]
fn default_trait_size_hint_delegates_to_type() {
    let anns: Vec<Annotation> = Vec::new();
    let mode = FieldAttributes::from_annotations(&anns).unwrap();
    assert_eq!(
        mode.generate_size_hint("MyType"),
        "<MyType as arbitrary::Arbitrary>::size_hint(depth)"
    );
}

#[test]
fn empty_option_list_keeps_default_mode() {
    let anns = vec![list_ann(1, "arbitrary", "")];
    let mode = FieldAttributes::from_annotations(&anns).unwrap();
    assert_eq!(mode, FieldAttributes::UseDefaultTrait);
}

#[test]
fn value_option_is_spliced_verbatim() {
    let anns = vec![list_ann(1, "arbitrary", "value = 42")];
    let mode = FieldAttributes::from_annotations(&anns).unwrap();
    assert_eq!(mode, FieldAttributes::UseFixedValue(String::from("42")));
    assert_eq!(mode.clone().generate_constructor("u"), "42");
    assert_eq!(mode.generate_size_hint("u8"), "(0, Some(0))");
}

#[test]
fn default_option_selects_type_default() {
    let anns = vec![list_ann(1, "arbitrary", "default")];
    let mode = FieldAttributes::from_annotations(&anns).unwrap();
    assert_eq!(mode, FieldAttributes::UseTypeDefault);
    assert_eq!(mode.clone().generate_constructor("u"), "Default::default()");
    assert_eq!(mode.generate_size_hint("u8"), "(0, Some(0))");
}

#[test]
fn with_option_wraps_the_callable() {
    let anns = vec![list_ann(1, "arbitrary", "with = my_gen")];
    let mode = FieldAttributes::from_annotations(&anns).unwrap();
    assert_eq!(mode, FieldAttributes::UseCustomExpression(String::from("my_gen")));
    assert_eq!(mode.clone().generate_constructor("u"), "(my_gen)(u)?");
    assert_eq!(
        mode.generate_size_hint("Vec<u8>"),
        "(::core::mem::size_of::<Vec<u8>>(), None)"
    );
}

#[test]
fn take_rest_constructors() {
    let anns: Vec<Annotation> = Vec::new();
    let mode = FieldAttributes::from_annotations(&anns).unwrap();
    assert_eq!(
        mode.generate_constructor_take_rest(),
        "arbitrary::Arbitrary::arbitrary_take_rest(u)?"
    );
    let with = FieldAttributes::from_annotations(&vec![list_ann(1, "arbitrary", "with = my_gen")])
        .unwrap();
    assert_eq!(with.generate_constructor_take_rest(), "(my_gen)(&mut u)?");
    let value = FieldAttributes::from_annotations(&vec![list_ann(1, "arbitrary", "value = 7")])
        .unwrap();
    assert_eq!(value.generate_constructor_take_rest(), "7");
}

#[test]
fn default_then_with_conflicts_naming_default() {
    let anns = vec![list_ann(5, "arbitrary", "default, with = my_gen")];
    let err = FieldAttributes::from_annotations(&anns).unwrap_err();
    assert_eq!(err.span, 5);
    assert_eq!(
        err.message,
        "Option default does not allow additional options, got with"
    );
}

#[test]
fn with_then_default_conflicts_naming_with() {
    let anns = vec![list_ann(5, "arbitrary", "with = my_gen, default")];
    let err = FieldAttributes::from_annotations(&anns).unwrap_err();
    assert_eq!(
        err.message,
        "Option with does not allow additional options, got default"
    );
}

#[test]
fn conflict_across_separate_annotations() {
    let anns = vec![
        list_ann(1, "arbitrary", "default"),
        bare_ann(2, "serde"),
        list_ann(3, "arbitrary", "with = my_gen"),
    ];
    let err = FieldAttributes::from_annotations(&anns).unwrap_err();
    assert_eq!(err.span, 3);
    assert_eq!(
        err.message,
        "Option default does not allow additional options, got with"
    );
}

#[test]
fn unknown_option_lists_the_three_names() {
    let anns = vec![list_ann(9, "arbitrary", "frobnicate")];
    let err = FieldAttributes::from_annotations(&anns).unwrap_err();
    assert_eq!(err.span, 9);
    assert_eq!(
        err.message,
        "Unknown option for `#[arbitrary]`: `frobnicate`. Known options for field attributes are: [\"default\", \"with\", \"value\"]"
    );
}

#[test]
fn bare_reserved_annotation_needs_a_group() {
    let anns = vec![bare_ann(4, "arbitrary")];
    let err = FieldAttributes::from_annotations(&anns).unwrap_err();
    assert_eq!(err.span, 4);
    assert_eq!(
        err.message,
        "#[arbitrary] must contain a group: expected attribute arguments in parentheses: #[arbitrary(...)]"
    );
}

#[test]
fn assigned_reserved_annotation_needs_a_group() {
    let anns = vec![Annotation {
        span: 4,
        name: String::from("arbitrary"),
        args: AnnotationArgs::Value(String::from("default")),
    }];
    let err = FieldAttributes::from_annotations(&anns).unwrap_err();
    assert_eq!(
        err.message,
        "#[arbitrary] must contain a group: expected parentheses: #[arbitrary(...)]"
    );
}

#[test]
fn unparseable_option_list_reports_the_parse_error() {
    let anns = vec![list_ann(4, "arbitrary", "= = =")];
    let err = FieldAttributes::from_annotations(&anns).unwrap_err();
    assert!(err.message.starts_with("#[arbitrary] must contain a group: "));
}

#[test]
fn default_with_a_value_is_malformed() {
    let anns = vec![list_ann(1, "arbitrary", "default = 3")];
    let err = FieldAttributes::from_annotations(&anns).unwrap_err();
    assert_eq!(err.message, "unexpected token in attribute");
}

#[test]
fn with_without_a_value_is_malformed() {
    let anns = vec![list_ann(1, "arbitrary", "with")];
    let err = FieldAttributes::from_annotations(&anns).unwrap_err();
    assert_eq!(err.message, "expected a value for this attribute: `with = ...`");
}

#[test]
fn with_as_a_group_is_malformed() {
    let anns = vec![list_ann(1, "arbitrary", "with(my_gen)")];
    let err = FieldAttributes::from_annotations(&anns).unwrap_err();
    assert_eq!(err.message, "expected `=`");
}

#[test]
fn value_without_a_value_is_malformed() {
    let anns = vec![list_ann(1, "arbitrary", "value")];
    let err = FieldAttributes::from_annotations(&anns).unwrap_err();
    assert_eq!(err.message, "expected a value for this attribute: `value = ...`");
}

#[test]
fn field_option_parses_each_shape() {
    let bare = OptionExpr { name: String::from("default"), shape: OptionShape::Bare };
    assert_eq!(FieldOption::parse(&bare).unwrap(), FieldOption::TypeDefault);
    let with = OptionExpr {
        name: String::from("with"),
        shape: OptionShape::Assign(String::from("my_gen")),
    };
    assert_eq!(
        FieldOption::parse(&with).unwrap(),
        FieldOption::With(String::from("my_gen"))
    );
    let value = OptionExpr {
        name: String::from("value"),
        shape: OptionShape::Assign(String::from("42")),
    };
    assert_eq!(
        FieldOption::parse(&value).unwrap(),
        FieldOption::Value(String::from("42"))
    );
}

#[test]
fn option_name_table_matches_recognition() {
    let names = OptionName::all_names();
    assert_eq!(names, vec!["default", "with", "value"]);
    for name in names {
        assert!(OptionName::find(&String::from(name)).is_some());
    }
    assert!(OptionName::find(&String::from("frobnicate")).is_none());
}

#[test]
fn field_constructor_default_is_the_initial_mode() {
    let c: FieldConstructor = Default::default();
    assert_eq!(c, FieldConstructor::UseDefaultTrait);
    assert_eq!(c.generate_constructor("u"), "arbitrary::Arbitrary::arbitrary(u)?");
    assert_eq!(c.as_str(), "");
}

#[test]
fn field_constructor_mirrors_field_attributes() {
    let anns = vec![list_ann(1, "arbitrary", "value = 42")];
    let mode = FieldAttributes::from_annotations(&anns).unwrap();
    let c = mode.constructor();
    assert_eq!(c, FieldConstructor::UseFixedValue(String::from("42")));
    assert_eq!(c.generate_constructor("u"), "42");
    assert_eq!(c.generate_size_hint("u8"), "(0, Some(0))");
    assert_eq!(c.as_str(), "value");
}
