use math_accent::accent::{Accent, AccentElem, SizeRatio};
use math_accent::cast::Content;
use math_accent::registry::{
    create_accent_param_info, get_accent_func, AccentArgs, AccentFuncs, ArgsError, ParamType,
};
use math_accent::table::accent_table;

fn base_x() -> Content {
    Content::Plain { text: String::from("X") }
}

#[test]
fn every_table_entry_has_an_accent_func() {
    let registry = AccentFuncs::new();
    for entry in &accent_table() {
        let f = get_accent_func(&registry, &entry.codepoint.to_string())
            .expect("every table codepoint has a function");
        assert_eq!(f.accent, Accent(entry.codepoint));
    }
}

#[test]
fn unknown_values_have_no_accent_func() {
    let registry = AccentFuncs::new();
    assert!(get_accent_func(&registry, "").is_none());
    assert!(get_accent_func(&registry, "q").is_none());
    assert!(get_accent_func(&registry, "ab").is_none());
}

#[test]
fn invoking_with_base_only_matches_direct_construction() {
    let registry = AccentFuncs::new();
    let f = get_accent_func(&registry, "\u{2192}").expect("the arrow accent exists");
    let args = AccentArgs { base: Some(base_x()), size: None, dotless: None };
    let elem = f.invoke(args).expect("base was supplied");
    assert_eq!(elem, AccentElem::new(base_x(), Accent('\u{20d7}')));
    assert_eq!(elem.size, SizeRatio { percent: 100 });
    assert!(elem.dotless);
}

#[test]
fn invoking_with_size_overrides_only_size() {
    let registry = AccentFuncs::new();
    let f = get_accent_func(&registry, "\u{2192}").expect("the arrow accent exists");
    let args = AccentArgs {
        base: Some(base_x()),
        size: Some(SizeRatio { percent: 150 }),
        dotless: None,
    };
    let elem = f.invoke(args).expect("base was supplied");
    assert_eq!(elem.size, SizeRatio { percent: 150 });
    assert_eq!(elem.base, base_x());
    assert_eq!(elem.accent, Accent('\u{20d7}'));
    assert!(elem.dotless);
}

#[test]
fn invoking_with_dotless_overrides_only_dotless() {
    let registry = AccentFuncs::new();
    let f = get_accent_func(&registry, "^").expect("the circumflex accent exists");
    let args = AccentArgs { base: Some(base_x()), size: None, dotless: Some(false) };
    let elem = f.invoke(args).expect("base was supplied");
    assert!(!elem.dotless);
    assert_eq!(elem.size, SizeRatio { percent: 100 });
    assert_eq!(elem.accent, Accent('\u{0302}'));
}

#[test]
fn missing_base_is_the_hosts_error() {
    let registry = AccentFuncs::new();
    let f = get_accent_func(&registry, "^").expect("the circumflex accent exists");
    let args = AccentArgs { base: None, size: Some(SizeRatio { percent: 50 }), dotless: None };
    let err = f.invoke(args).expect_err("the base is required");
    assert_eq!(err, ArgsError::MissingArgument);
    assert_eq!(err.message(), "missing argument: base");
}

#[test]
fn repeated_lookups_return_the_identical_descriptor() {
    let registry = AccentFuncs::new();
    let f1 = get_accent_func(&registry, "\u{2192}").expect("the arrow accent exists");
    let f2 = get_accent_func(&registry, "\u{2192}").expect("the arrow accent exists");
    assert!(std::ptr::eq(f1, f2));
    // Another designator of the same entry shares the descriptor too.
    let f3 = get_accent_func(&registry, "\u{27f6}").expect("the long arrow alias exists");
    assert!(std::ptr::eq(f1, f3));
}

#[test]
fn descriptor_strings_are_generated_from_the_codepoint() {
    let registry = AccentFuncs::new();
    let f = get_accent_func(&registry, "\u{2192}").expect("the arrow accent exists");
    assert_eq!(f.name, "(..) => ..");
    assert_eq!(f.title, "Accent (\u{20d7})");
    assert_eq!(f.docs, "Adds the accent \u{20d7} on an expression.");
}

#[test]
fn parameter_schema_has_the_three_parameters() {
    let params = create_accent_param_info();
    assert_eq!(params.len(), 3);
    assert_eq!(params[0].name, "base");
    assert_eq!(params[0].input, ParamType::Content);
    assert!(params[0].positional && params[0].required && !params[0].named);
    assert_eq!(params[1].name, "size");
    assert_eq!(params[1].input, ParamType::RelativeLength);
    assert!(params[1].named && !params[1].required && !params[1].positional);
    assert_eq!(params[2].name, "dotless");
    assert_eq!(params[2].input, ParamType::Bool);
    assert!(params[2].named && !params[2].required && !params[2].positional);
    for p in &params {
        assert!(!p.variadic && !p.settable);
    }
}

#[test]
fn defaults_are_fixed() {
    assert_eq!(Accent::default(), Accent('\u{0000}'));
    assert_eq!(SizeRatio::one(), SizeRatio { percent: 100 });
}

#[test]
fn invoking_with_both_overrides_applies_both() {
    let registry = AccentFuncs::new();
    let f = get_accent_func(&registry, "~").expect("the tilde accent exists");
    let args = AccentArgs {
        base: Some(base_x()),
        size: Some(SizeRatio { percent: 75 }),
        dotless: Some(false),
    };
    let elem = f.invoke(args).expect("base was supplied");
    assert_eq!(elem.accent, Accent('\u{0303}'));
    assert_eq!(elem.size, SizeRatio { percent: 75 });
    assert!(!elem.dotless);
}
