use fromenv_field::shape::parse_option;

fn ty(text: &str) -> syn::Type {
    syn::parse_str(text).expect("a type")
}

fn inner(text: &str) -> Option<syn::Type> {
    let outer = ty(text);
    parse_option(&outer).cloned()
}

#[test]
fn option_of_one_type_is_a_wrapper() {
    assert_eq!(inner("Option<u32>"), Some(ty("u32")));
    assert_eq!(inner("Option<Vec<String>>"), Some(ty("Vec<String>")));
}

#[test]
fn only_the_last_segment_counts() {
    assert_eq!(inner("std::option::Option<String>"), Some(ty("String")));
    assert_eq!(inner("::core::option::Option<u8>"), Some(ty("u8")));
    assert_eq!(inner("Option<u8>::Item"), None);
}

#[test]
fn the_wrapper_is_found_by_its_spelling_alone() {
    assert_eq!(inner("my_crate::Option<Config>"), Some(ty("Config")));
    assert_eq!(inner("Maybe<u32>"), None);
    assert_eq!(inner("option<u32>"), None);
    assert_eq!(inner("r#Option<u32>"), None);
}

#[test]
fn a_plain_type_is_no_wrapper() {
    assert_eq!(inner("String"), None);
    assert_eq!(inner("Vec<u8>"), None);
    assert_eq!(inner("Result<Option<u8>, String>"), None);
}

#[test]
fn a_type_that_is_no_path_is_no_wrapper() {
    assert_eq!(inner("&'static str"), None);
    assert_eq!(inner("(Option<u8>,)"), None);
    assert_eq!(inner("[Option<u8>; 2]"), None);
    assert_eq!(inner("fn() -> Option<u8>"), None);
}

#[test]
fn option_without_angle_brackets_is_no_wrapper() {
    assert_eq!(inner("Option"), None);
    assert_eq!(inner("module::Option"), None);
}

#[test]
fn option_needs_exactly_one_argument() {
    assert_eq!(inner("Option<>"), None);
    assert_eq!(inner("Option<u8, u16>"), None);
}

#[test]
fn the_argument_of_option_must_be_a_type() {
    assert_eq!(inner("Option<'static>"), None);
    assert_eq!(inner("Option<3>"), None);
    assert_eq!(inner("Option<{ 1 + 1 }>"), None);
    assert_eq!(inner("Option<Item = u8>"), None);
}

#[test]
fn the_inner_type_is_borrowed_from_the_outer() {
    let outer = ty("Option<Option<u8>>");
    let first = parse_option(&outer).expect("an optional");
    assert_eq!(*first, ty("Option<u8>"));
    let second = parse_option(first).expect("an optional inside");
    assert_eq!(*second, ty("u8"));
    assert!(parse_option(second).is_none());
}
