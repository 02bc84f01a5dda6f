use fromenv_field::diagnostic::{Diagnostic, DiagnosticKind, Slot};
use fromenv_field::options::{DefaultOption, RawOptionSet};
use fromenv_field::resolve::{default_name, resolve, EnvAttribute};
use fromenv_field::syntax::NameOverride;
use proc_macro2::Span;

fn ident(text: &str) -> syn::Ident {
    syn::parse_str(text).expect("an identifier")
}

fn literal(text: &str) -> syn::LitStr {
    syn::LitStr::new(text, Span::call_site())
}

fn function(text: &str) -> syn::ExprPath {
    syn::parse_str(text).expect("a path")
}

/// A location that differs from every other one made here.
fn place(text: &str) -> Span {
    let parsed: syn::Ident = syn::parse_str(text).expect("an identifier");
    parsed.span()
}

fn same_place(a: Span, b: Span) -> bool {
    a.start() == b.start() && a.end() == b.end() && format!("{:?}", a) == format!("{:?}", b)
}

fn default_of(text: &str, key_span: Span) -> DefaultOption {
    DefaultOption { expression: literal(text), key_span }
}

struct Flat {
    name: String,
    from: Option<String>,
    default: Option<String>,
    with: Option<syn::ExprPath>,
}

fn flat(outcome: Result<EnvAttribute, Diagnostic>) -> Flat {
    match outcome {
        Ok(EnvAttribute::Flat { name, from, default, with }) => Flat {
            name: name.value(),
            from: from.map(|l| l.value()),
            default: default.map(|l| l.value()),
            with,
        },
        other => panic!("not flat: {:?}", other.map_err(|d| d.kind())),
    }
}

#[test]
fn default_name_is_the_identifier_in_upper_case() {
    assert_eq!(default_name(&ident("api_key")).value(), "API_KEY");
    assert_eq!(default_name(&ident("retry_count")).value(), "RETRY_COUNT");
    assert_eq!(default_name(&ident("x2")).value(), "X2");
    assert_eq!(default_name(&ident("ALREADY")).value(), "ALREADY");
}

#[test]
fn default_name_follows_unicode_upper_casing() {
    assert_eq!(default_name(&ident("straße")).value(), "STRASSE");
    assert_eq!(default_name(&ident("größe")).value(), "GRÖSSE");
}

#[test]
fn default_name_stands_at_the_identifier() {
    let name = ident("api_key");
    assert!(same_place(default_name(&name).span(), name.span()));
}

#[test]
fn no_option_gives_flat_with_the_default_name() {
    let got = flat(resolve(&ident("api_key"), false, RawOptionSet::new()));
    assert_eq!(got.name, "API_KEY");
    assert_eq!(got.from, None);
    assert_eq!(got.default, None);
    assert_eq!(got.with, None);
}

#[test]
fn no_option_on_an_optional_field_gives_flat_too() {
    let got = flat(resolve(&ident("port"), true, RawOptionSet::new()));
    assert_eq!(got.name, "PORT");
    assert_eq!(got.from, None);
    assert_eq!(got.default, None);
    assert_eq!(got.with, None);
}

#[test]
fn rename_with_a_literal_sets_the_name() {
    let mut options = RawOptionSet::new();
    options.rename = Some(NameOverride::Explicit(literal("X")));
    let got = flat(resolve(&ident("api_key"), false, options));
    assert_eq!(got.name, "X");
    assert_eq!(got.from, None);
    assert_eq!(got.default, None);
    assert_eq!(got.with, None);
}

#[test]
fn bare_rename_keeps_the_default_name() {
    let mut options = RawOptionSet::new();
    options.rename = Some(NameOverride::Inherit);
    let got = flat(resolve(&ident("api_key"), false, options));
    assert_eq!(got.name, "API_KEY");
    assert_eq!(got.from, None);
}

#[test]
fn bare_from_is_the_default_name() {
    let mut bare = RawOptionSet::new();
    bare.from = Some(NameOverride::Inherit);
    let mut written = RawOptionSet::new();
    written.from = Some(NameOverride::Explicit(literal("API_KEY")));
    let a = flat(resolve(&ident("api_key"), false, bare));
    let b = flat(resolve(&ident("api_key"), false, written));
    assert_eq!(a.from, Some("API_KEY".to_string()));
    assert_eq!(a.from, b.from);
    assert_eq!(a.name, b.name);
    assert_eq!(a.default, b.default);
    assert_eq!(a.with, b.with);
}

#[test]
fn from_with_a_literal_leaves_the_name_alone() {
    let mut options = RawOptionSet::new();
    options.from = Some(NameOverride::Explicit(literal("SECRET_KEY")));
    let got = flat(resolve(&ident("api_key"), false, options));
    assert_eq!(got.name, "API_KEY");
    assert_eq!(got.from, Some("SECRET_KEY".to_string()));
    assert_eq!(got.default, None);
    assert_eq!(got.with, None);
}

#[test]
fn all_value_options_pass_through() {
    let mut options = RawOptionSet::new();
    options.from = Some(NameOverride::Explicit(literal("SOURCE")));
    options.rename = Some(NameOverride::Explicit(literal("SHOWN")));
    options.default = Some(default_of("8080", place("default")));
    options.with = Some(function("parsers::port"));
    let got = flat(resolve(&ident("port"), false, options));
    assert_eq!(got.name, "SHOWN");
    assert_eq!(got.from, Some("SOURCE".to_string()));
    assert_eq!(got.default, Some("8080".to_string()));
    assert_eq!(got.with, Some(function("parsers::port")));
}

#[test]
fn ignored_alone_leaves_the_field_out() {
    let mut options = RawOptionSet::new();
    options.ignored = Some(place("ignored"));
    assert!(matches!(resolve(&ident("unused"), false, options), Ok(EnvAttribute::Ignored)));
    let mut options = RawOptionSet::new();
    options.ignored = Some(place("ignored"));
    assert!(matches!(resolve(&ident("unused"), true, options), Ok(EnvAttribute::Ignored)));
}

#[test]
fn nested_alone_is_nested() {
    let mut options = RawOptionSet::new();
    options.nested = Some(place("nested"));
    assert!(matches!(resolve(&ident("sub"), false, options), Ok(EnvAttribute::Nested)));
    let mut options = RawOptionSet::new();
    options.nested = Some(place("nested"));
    assert!(matches!(resolve(&ident("sub"), true, options), Ok(EnvAttribute::Nested)));
}

fn with_one_other(which: usize) -> RawOptionSet {
    let mut options = RawOptionSet::new();
    match which {
        0 => options.from = Some(NameOverride::Inherit),
        1 => options.rename = Some(NameOverride::Explicit(literal("X"))),
        2 => options.default = Some(default_of("1", place("default"))),
        3 => options.with = Some(function("f")),
        _ => options.nested = Some(place("nested")),
    }
    options
}

#[test]
fn ignored_beside_any_other_option_is_a_conflict_at_ignored() {
    for which in 0..5 {
        for optional in [false, true] {
            let at = place("ignored");
            let mut options = with_one_other(which);
            options.ignored = Some(at);
            match resolve(&ident("unused"), optional, options) {
                Err(Diagnostic::IgnoredClash { span }) => assert!(same_place(span, at)),
                other => panic!("case {}: {:?}", which, other.map_err(|d| d.kind())),
            }
        }
    }
}

#[test]
fn nested_beside_a_value_option_is_a_conflict_at_nested() {
    for which in 0..4 {
        for optional in [false, true] {
            let at = place("nested");
            let mut options = with_one_other(which);
            options.nested = Some(at);
            match resolve(&ident("sub"), optional, options) {
                Err(Diagnostic::NestedClash { span }) => assert!(same_place(span, at)),
                other => panic!("case {}: {:?}", which, other.map_err(|d| d.kind())),
            }
        }
    }
}

#[test]
fn ignored_wins_over_nested() {
    let at = place("ignored");
    let mut options = RawOptionSet::new();
    options.nested = Some(place("nested"));
    options.ignored = Some(at);
    options.from = Some(NameOverride::Inherit);
    match resolve(&ident("both"), false, options) {
        Err(diagnostic) => {
            assert_eq!(diagnostic.kind(), DiagnosticKind::ConflictError);
            match diagnostic {
                Diagnostic::IgnoredClash { span } => assert!(same_place(span, at)),
                _ => panic!("not the clash of `ignored`"),
            }
        }
        Ok(_) => panic!("accepted"),
    }
}

#[test]
fn default_on_an_optional_field_is_a_violation_at_default() {
    let at = place("default");
    let mut options = RawOptionSet::new();
    options.default = Some(default_of("3", at));
    match resolve(&ident("retry_count"), true, options) {
        Err(diagnostic) => {
            assert_eq!(diagnostic.kind(), DiagnosticKind::InvariantViolation);
            match diagnostic {
                Diagnostic::OptionalDefault { span } => assert!(same_place(span, at)),
                _ => panic!("not the violation"),
            }
        }
        Ok(_) => panic!("accepted"),
    }
}

#[test]
fn default_on_an_optional_field_is_refused_beside_other_values() {
    let at = place("default");
    let mut options = RawOptionSet::new();
    options.default = Some(default_of("3", at));
    options.from = Some(NameOverride::Explicit(literal("A")));
    options.rename = Some(NameOverride::Inherit);
    options.with = Some(function("f"));
    match resolve(&ident("retry_count"), true, options) {
        Err(Diagnostic::OptionalDefault { span }) => assert!(same_place(span, at)),
        other => panic!("{:?}", other.map_err(|d| d.kind())),
    }
}

#[test]
fn default_on_a_plain_field_is_kept() {
    let mut options = RawOptionSet::new();
    options.default = Some(default_of("3", place("default")));
    let got = flat(resolve(&ident("retry_count"), false, options));
    assert_eq!(got.name, "RETRY_COUNT");
    assert_eq!(got.default, Some("3".to_string()));
}

#[test]
fn option_set_reports_what_is_set() {
    let mut options = RawOptionSet::new();
    for slot in [Slot::From, Slot::Rename, Slot::Default, Slot::With, Slot::Nested, Slot::Ignored] {
        assert!(!options.is_set(slot));
    }
    assert!(!options.has_value());
    options.nested = Some(place("nested"));
    assert!(options.is_set(Slot::Nested));
    assert!(!options.has_value());
    options.with = Some(function("f"));
    assert!(options.is_set(Slot::With));
    assert!(!options.is_set(Slot::From));
    assert!(options.has_value());
}
