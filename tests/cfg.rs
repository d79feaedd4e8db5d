use dream_cfg::cfg::{
    is_cfg_test, is_test, should_include, Attribute, AttributeArg, AttributeArgs,
    CompileOptions, Span,
};

fn make_attr(name: &str, args: AttributeArgs) -> Attribute {
    Attribute {
        name: name.to_string(),
        args,
        span: Span { start: 0, end: 0 },
    }
}

fn ident(s: &str) -> AttributeArg {
    AttributeArg::Ident(s.to_string())
}

fn feature(s: &str) -> AttributeArg {
    AttributeArg::KeyValue("feature".to_string(), s.to_string())
}

fn call(name: &str, args: Vec<AttributeArg>) -> AttributeArg {
    AttributeArg::Nested(name.to_string(), args)
}

fn cfg(args: Vec<AttributeArg>) -> Attribute {
    make_attr("cfg", AttributeArgs::Parenthesized(args))
}

#[test]
fn test_no_attrs_included() {
    let options = CompileOptions::new();
    assert!(should_include(&[], &options));
}

#[test]
fn test_non_cfg_attrs_included() {
    let options = CompileOptions::new();
    let attrs = vec![make_attr("test", AttributeArgs::NoArgs)];
    assert!(should_include(&attrs, &options));
}

#[test]
fn test_cfg_test_in_test_mode() {
    let options = CompileOptions::for_testing();
    let attrs = vec![make_attr(
        "cfg",
        AttributeArgs::Parenthesized(vec![AttributeArg::Ident("test".to_string())]),
    )];
    assert!(should_include(&attrs, &options));
}

#[test]
fn test_cfg_test_not_in_test_mode() {
    let options = CompileOptions::new();
    let attrs = vec![make_attr(
        "cfg",
        AttributeArgs::Parenthesized(vec![AttributeArg::Ident("test".to_string())]),
    )];
    assert!(!should_include(&attrs, &options));
}

#[test]
fn test_cfg_feature_enabled() {
    let mut features = Vec::new();
    features.push("json".to_string());
    let options = CompileOptions::with_features(features);

    let attrs = vec![make_attr(
        "cfg",
        AttributeArgs::Parenthesized(vec![AttributeArg::KeyValue(
            "feature".to_string(),
            "json".to_string(),
        )]),
    )];
    assert!(should_include(&attrs, &options));
}

#[test]
fn test_cfg_feature_disabled() {
    let options = CompileOptions::new();
    let attrs = vec![make_attr(
        "cfg",
        AttributeArgs::Parenthesized(vec![AttributeArg::KeyValue(
            "feature".to_string(),
            "json".to_string(),
        )]),
    )];
    assert!(!should_include(&attrs, &options));
}

#[test]
fn test_cfg_not() {
    let options = CompileOptions::new();
    let attrs = vec![make_attr(
        "cfg",
        AttributeArgs::Parenthesized(vec![AttributeArg::Nested(
            "not".to_string(),
            vec![AttributeArg::Ident("test".to_string())],
        )]),
    )];
    assert!(should_include(&attrs, &options));

    let options = CompileOptions::for_testing();
    assert!(!should_include(&attrs, &options));
}

#[test]
fn test_cfg_all() {
    let mut features = Vec::new();
    features.push("json".to_string());
    features.push("async".to_string());
    let options = CompileOptions::with_features(features);

    let attrs = vec![make_attr(
        "cfg",
        AttributeArgs::Parenthesized(vec![AttributeArg::Nested(
            "all".to_string(),
            vec![
                AttributeArg::KeyValue("feature".to_string(), "json".to_string()),
                AttributeArg::KeyValue("feature".to_string(), "async".to_string()),
            ],
        )]),
    )];
    assert!(should_include(&attrs, &options));

    let mut features = Vec::new();
    features.push("json".to_string());
    let options = CompileOptions::with_features(features);
    assert!(!should_include(&attrs, &options));
}

#[test]
fn test_cfg_any() {
    let mut features = Vec::new();
    features.push("json".to_string());
    let options = CompileOptions::with_features(features);

    let attrs = vec![make_attr(
        "cfg",
        AttributeArgs::Parenthesized(vec![AttributeArg::Nested(
            "any".to_string(),
            vec![
                AttributeArg::KeyValue("feature".to_string(), "json".to_string()),
                AttributeArg::KeyValue("feature".to_string(), "yaml".to_string()),
            ],
        )]),
    )];
    assert!(should_include(&attrs, &options));

    let options = CompileOptions::new();
    assert!(!should_include(&attrs, &options));
}

#[test]
fn test_is_test_attr() {
    let attrs = vec![make_attr("test", AttributeArgs::NoArgs)];
    assert!(is_test(&attrs));

    let attrs = vec![make_attr("cfg", AttributeArgs::NoArgs)];
    assert!(!is_test(&attrs));

    let attrs: Vec<Attribute> = vec![];
    assert!(!is_test(&attrs));
}

#[test]
fn test_is_cfg_test() {
    let attrs = vec![make_attr(
        "cfg",
        AttributeArgs::Parenthesized(vec![AttributeArg::Ident("test".to_string())]),
    )];
    assert!(is_cfg_test(&attrs));

    let attrs = vec![make_attr(
        "cfg",
        AttributeArgs::Parenthesized(vec![AttributeArg::KeyValue(
            "feature".to_string(),
            "json".to_string(),
        )]),
    )];
    assert!(!is_cfg_test(&attrs));
}

#[test]
fn test_multiple_cfg_attrs() {
    let mut features = Vec::new();
    features.push("json".to_string());
    let options = CompileOptions::for_testing_with_features(features);

    let attrs = vec![
        make_attr(
            "cfg",
            AttributeArgs::Parenthesized(vec![AttributeArg::Ident("test".to_string())]),
        ),
        make_attr(
            "cfg",
            AttributeArgs::Parenthesized(vec![AttributeArg::KeyValue(
                "feature".to_string(),
                "json".to_string(),
            )]),
        ),
    ];
    assert!(should_include(&attrs, &options));

    let options = CompileOptions::for_testing();
    assert!(!should_include(&attrs, &options));
}

#[test]
fn empty_cfg_is_vacuously_true() {
    let attrs = vec![cfg(vec![])];
    assert!(should_include(&attrs, &CompileOptions::new()));
    assert!(should_include(&attrs, &CompileOptions::for_testing()));
}

#[test]
fn malformed_cfg_payloads_pass() {
    let bare = vec![make_attr("cfg", AttributeArgs::NoArgs)];
    assert!(should_include(&bare, &CompileOptions::new()));
    let eq = vec![make_attr("cfg", AttributeArgs::Eq("test".to_string()))];
    assert!(should_include(&eq, &CompileOptions::new()));
}

#[test]
fn not_test_negates_test_in_both_modes() {
    let negated = vec![cfg(vec![call("not", vec![ident("test")])])];
    let plain = vec![cfg(vec![ident("test")])];
    for options in [CompileOptions::new(), CompileOptions::for_testing()] {
        assert_eq!(should_include(&negated, &options), !should_include(&plain, &options));
    }
}

#[test]
fn not_with_wrong_arity_is_false() {
    let none = vec![cfg(vec![call("not", vec![])])];
    assert!(!should_include(&none, &CompileOptions::new()));
    let two = vec![cfg(vec![call("not", vec![ident("test"), ident("bogus")])])];
    assert!(!should_include(&two, &CompileOptions::new()));
}

#[test]
fn vacuous_all_and_any() {
    let all = vec![cfg(vec![call("all", vec![])])];
    let any = vec![cfg(vec![call("any", vec![])])];
    for options in [CompileOptions::new(), CompileOptions::for_testing()] {
        assert!(should_include(&all, &options));
        assert!(!should_include(&any, &options));
    }
}

#[test]
fn unknown_terms_are_false() {
    let options = CompileOptions::for_testing_with_features(vec!["x".to_string()]);
    let bogus = vec![cfg(vec![ident("bogus")])];
    assert!(!should_include(&bogus, &options));
    let weird = vec![cfg(vec![AttributeArg::KeyValue("weird".to_string(), "x".to_string())])];
    assert!(!should_include(&weird, &options));
    let unknown_call = vec![cfg(vec![call("maybe", vec![ident("test")])])];
    assert!(!should_include(&unknown_call, &options));
}

#[test]
fn top_level_terms_are_conjoined() {
    let attrs = vec![cfg(vec![ident("test"), feature("json")])];
    let both = CompileOptions::for_testing_with_features(vec!["json".to_string()]);
    assert!(should_include(&attrs, &both));
    assert!(!should_include(&attrs, &CompileOptions::for_testing()));
    assert!(!should_include(&attrs, &CompileOptions::with_features(vec!["json".to_string()])));
}

#[test]
fn stacked_cfgs_need_both() {
    let attrs = vec![cfg(vec![ident("test")]), cfg(vec![feature("json")])];
    let json = vec!["json".to_string()];
    assert!(should_include(&attrs, &CompileOptions::for_testing_with_features(json.clone())));
    assert!(!should_include(&attrs, &CompileOptions::with_features(json)));
    assert!(!should_include(&attrs, &CompileOptions::for_testing()));
    assert!(!should_include(&attrs, &CompileOptions::new()));
}

#[test]
fn nested_terms_evaluate_recursively() {
    // all(test, any(feature = "a", not(feature = "b")))
    let attrs = vec![cfg(vec![call(
        "all",
        vec![ident("test"), call("any", vec![feature("a"), call("not", vec![feature("b")])])],
    )])];
    assert!(should_include(&attrs, &CompileOptions::for_testing()));
    assert!(!should_include(
        &attrs,
        &CompileOptions::for_testing_with_features(vec!["b".to_string()])
    ));
    assert!(should_include(
        &attrs,
        &CompileOptions::for_testing_with_features(vec!["a".to_string(), "b".to_string()])
    ));
    assert!(!should_include(&attrs, &CompileOptions::new()));
}

#[test]
fn feature_names_match_exactly() {
    let options = CompileOptions::with_features(vec!["json".to_string()]);
    assert!(!should_include(&vec![cfg(vec![feature("JSON")])], &options));
    assert!(!should_include(&vec![cfg(vec![feature("json ")])], &options));
    assert!(should_include(&vec![cfg(vec![feature("json")])], &options));
}

#[test]
fn identifiers_are_case_sensitive() {
    let attrs = vec![cfg(vec![ident("Test")])];
    assert!(!should_include(&attrs, &CompileOptions::for_testing()));
    assert!(!is_test(&vec![make_attr("Test", AttributeArgs::NoArgs)]));
}

#[test]
fn non_cfg_attributes_do_not_gate() {
    let attrs = vec![make_attr("derive", AttributeArgs::Parenthesized(vec![ident("bogus")]))];
    assert!(should_include(&attrs, &CompileOptions::new()));
}

#[test]
fn is_cfg_test_needs_the_flat_form() {
    assert!(is_cfg_test(&vec![cfg(vec![ident("test")])]));
    assert!(!is_cfg_test(&vec![cfg(vec![feature("x")])]));
    assert!(!is_cfg_test(&vec![cfg(vec![call("all", vec![ident("test")])])]));
    assert!(!is_cfg_test(&vec![cfg(vec![ident("test"), ident("test")])]));
    assert!(!is_cfg_test(&vec![make_attr("cfg", AttributeArgs::NoArgs)]));
    assert!(!is_cfg_test(&vec![make_attr("other", AttributeArgs::Parenthesized(vec![ident("test")]))]));
    assert!(is_cfg_test(&vec![make_attr("inline", AttributeArgs::NoArgs), cfg(vec![ident("test")])]));
}

#[test]
fn is_cfg_test_ignores_options() {
    let attrs = vec![cfg(vec![ident("test")])];
    assert!(is_cfg_test(&attrs));
    assert!(!should_include(&attrs, &CompileOptions::new()));
}

#[test]
fn is_test_ignores_gating() {
    let attrs = vec![make_attr("test", AttributeArgs::NoArgs), cfg(vec![feature("missing")])];
    assert!(is_test(&attrs));
    assert!(!should_include(&attrs, &CompileOptions::for_testing()));
}

#[test]
fn features_are_held_once() {
    let mut options = CompileOptions::with_features(vec!["a".to_string(), "a".to_string()]);
    assert!(options.has_feature("a"));
    assert!(!options.has_feature("b"));
    options.enable_feature("b".to_string());
    options.enable_feature("b".to_string());
    assert!(options.has_feature("b"));
    assert!(options.has_feature("a"));
    assert!(!options.test_mode);
}
