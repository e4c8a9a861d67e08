use oauth_core::scope::Scope;

#[test]
fn parse_single_token() {
    let s = Scope::parse("read").unwrap();
    assert_eq!(s.as_string(), "read");
}

#[test]
fn parse_two_tokens() {
    let s = Scope::parse("read write").unwrap();
    assert_eq!(s.as_string(), "read write");
}

#[test]
fn parse_collapses_extra_spaces() {
    let s = Scope::parse("  read   write ").unwrap();
    assert_eq!(s.as_string(), "read write");
}

#[test]
fn parse_empty_string() {
    let s = Scope::parse("").unwrap();
    assert_eq!(s.as_string(), "");
}

#[test]
fn parse_rejects_double_quote() {
    assert!(Scope::parse("re\"ad").is_none());
}

#[test]
fn parse_rejects_backslash() {
    assert!(Scope::parse("re\\ad").is_none());
}

#[test]
fn parse_rejects_control_character() {
    assert!(Scope::parse("read\u{1}").is_none());
}

#[test]
fn parse_rejects_non_ascii() {
    assert!(Scope::parse("r\u{e9}ad").is_none());
}

#[test]
fn subset_on_equal_scopes() {
    let a = Scope::parse("read").unwrap();
    let b = Scope::parse("read").unwrap();
    assert!(a.subset_of(&b));
}

#[test]
fn subset_of_larger_scope() {
    let a = Scope::parse("read").unwrap();
    let b = Scope::parse("write read").unwrap();
    assert!(a.subset_of(&b));
    assert!(!b.subset_of(&a));
}

#[test]
fn subset_empty_scope() {
    let a = Scope::parse("").unwrap();
    let b = Scope::parse("read").unwrap();
    assert!(a.subset_of(&b));
    assert!(!b.subset_of(&a));
}

#[test]
fn intersect_keeps_common_tokens() {
    let a = Scope::parse("read write admin").unwrap();
    let b = Scope::parse("write read").unwrap();
    let c = a.intersect(&b);
    assert_eq!(c.as_string(), "read write");
}

#[test]
fn intersect_disjoint_is_empty() {
    let a = Scope::parse("read").unwrap();
    let b = Scope::parse("write").unwrap();
    assert_eq!(a.intersect(&b).as_string(), "");
}

#[test]
fn duplicate_scope_keeps_tokens() {
    let a = Scope::parse("read write").unwrap();
    let b = a.duplicate();
    assert_eq!(b.as_string(), "read write");
}
