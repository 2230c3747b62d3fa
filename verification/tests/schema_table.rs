//! Tests of the schema table: lookup, sortedness, attribute checking,
//! and sorted insertion.

use domsl::bytes::{ByteCmp, cmp_bytes, starts_lowercase};
use domsl::error::Error;
use domsl::schema::{Schema, TagInfo};
use domsl::tags::{default_globals, standard_schema};

fn b(s: &str) -> Vec<u8> {
    s.as_bytes().to_vec()
}

fn bare_tag(name: &str, ty: &str) -> TagInfo {
    TagInfo {
        name: b(name),
        ty: b(ty),
        categories: Vec::new(),
        children: Vec::new(),
        attributes: Vec::new(),
    }
}

#[test]
fn lookup_known_tags() {
    let s = standard_schema();
    let div = s.from_name(&b("div"), 0).unwrap();
    assert_eq!(div.ty, b("HtmlDivElement"));
    let a = s.from_name(&b("a"), 0).unwrap();
    assert_eq!(a.ty, b("HtmlAnchorElement"));
    let span = s.from_name(&b("span"), 0).unwrap();
    assert_eq!(span.ty, b("HtmlSpanElement"));
    let wbr = s.from_name(&b("wbr"), 0).unwrap();
    assert_eq!(wbr.ty, b("HtmlElement"));
}

#[test]
fn lookup_unknown_tag() {
    let s = standard_schema();
    match s.from_name(&b("foo"), 7) {
        Err(Error::UnknownTag { name, pos }) => {
            assert_eq!(name, b("foo"));
            assert_eq!(pos, 7);
        }
        other => panic!("expected an unknown-tag diagnostic, got {:?}", other),
    }
}

#[test]
fn standard_table_is_sorted() {
    let s = standard_schema();
    assert!(s.is_sorted());
}

#[test]
fn own_attribute_accepted() {
    let s = standard_schema();
    let a = s.from_name(&b("a"), 0).unwrap();
    assert!(s.check_attribute(a, &b("href"), 3).is_ok());
    assert!(s.check_attribute(a, &b("target"), 3).is_ok());
}

#[test]
fn global_attribute_accepted_everywhere() {
    let s = standard_schema();
    let div = s.from_name(&b("div"), 0).unwrap();
    assert!(s.check_attribute(div, &b("class"), 3).is_ok());
    assert!(s.check_attribute(div, &b("id"), 3).is_ok());
}

#[test]
fn foreign_attribute_rejected() {
    let s = standard_schema();
    let div = s.from_name(&b("div"), 0).unwrap();
    match s.check_attribute(div, &b("href"), 9) {
        Err(Error::InvalidAttr { attr, tag, pos }) => {
            assert_eq!(attr, b("href"));
            assert_eq!(tag, b("div"));
            assert_eq!(pos, 9);
        }
        other => panic!("expected an invalid-attribute diagnostic, got {:?}", other),
    }
}

#[test]
fn insertion_sorts_whatever_the_order() {
    let mut s = Schema::empty(default_globals());
    s.insert_tag(bare_tag("zz", "Z"));
    s.insert_tag(bare_tag("aa", "A"));
    s.insert_tag(bare_tag("mm", "M"));
    assert!(s.is_sorted());
    assert_eq!(s.from_name(&b("aa"), 0).unwrap().ty, b("A"));
    assert_eq!(s.from_name(&b("mm"), 0).unwrap().ty, b("M"));
    assert_eq!(s.from_name(&b("zz"), 0).unwrap().ty, b("Z"));
    assert!(s.from_name(&b("bb"), 0).is_err());
}

#[test]
fn insertion_replaces_same_name() {
    let mut s = Schema::empty(Vec::new());
    s.insert_tag(bare_tag("div", "First"));
    s.insert_tag(bare_tag("div", "Second"));
    assert!(s.is_sorted());
    assert_eq!(s.from_name(&b("div"), 0).unwrap().ty, b("Second"));
}

#[test]
fn byte_order_is_lexicographic() {
    assert_eq!(cmp_bytes(&b("abc"), &b("abd")), ByteCmp::Less);
    assert_eq!(cmp_bytes(&b("ab"), &b("abc")), ByteCmp::Less);
    assert_eq!(cmp_bytes(&b("abc"), &b("abc")), ByteCmp::Equal);
    assert_eq!(cmp_bytes(&b("b"), &b("ab")), ByteCmp::Greater);
    assert_eq!(cmp_bytes(&b(""), &b("a")), ByteCmp::Less);
}

#[test]
fn lowercase_leading_names() {
    assert!(starts_lowercase(&b("div")));
    assert!(!starts_lowercase(&b("Foo")));
    assert!(!starts_lowercase(&b("_x")));
    assert!(!starts_lowercase(&b("")));
}

#[test]
fn lookup_script_and_noscript() {
    let s = standard_schema();
    let script = s.from_name(&b("script"), 0).unwrap();
    assert_eq!(script.ty, b("HtmlScriptElement"));
    assert!(s.check_attribute(script, &b("defer"), 0).is_ok());
    let noscript = s.from_name(&b("noscript"), 0).unwrap();
    assert_eq!(noscript.ty, b("HtmlElement"));
}

#[test]
fn input_allows_its_own_attributes() {
    let s = standard_schema();
    let input = s.from_name(&b("input"), 0).unwrap();
    assert_eq!(input.attributes.len(), 30);
    assert!(s.check_attribute(input, &b("placeholder"), 0).is_ok());
    assert!(s.check_attribute(input, &b("href"), 0).is_err());
}
