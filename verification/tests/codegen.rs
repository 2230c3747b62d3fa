//! Tests of code generation: root casts, attribute rendering, validation
//! diagnostics, and the end-to-end compile of whole invocations.

use domsl::error::Error;
use domsl::gen::{AttrCode, Code};
use domsl::jsx::{compile, expand};
use domsl::schema::Schema;
use domsl::tags::standard_schema;
use domsl::tok::Tok;

fn b(s: &str) -> Vec<u8> {
    s.as_bytes().to_vec()
}

fn lt(pos: usize) -> Tok {
    Tok::Lt { pos }
}

fn gt(pos: usize) -> Tok {
    Tok::Gt { pos }
}

fn slash(pos: usize) -> Tok {
    Tok::Slash { pos }
}

fn assign(pos: usize) -> Tok {
    Tok::Assign { pos }
}

fn ident(s: &str, pos: usize) -> Tok {
    Tok::Ident { text: b(s), pos }
}

fn lit(s: &str, pos: usize) -> Tok {
    Tok::Lit { text: b(s), pos }
}

fn group(toks: Vec<Tok>, pos: usize) -> Tok {
    Tok::Group { toks, pos }
}

fn empty_div_invocation() -> Vec<Tok> {
    let body = vec![lt(4), ident("div", 5), gt(6), lt(7), slash(8), ident("div", 9), gt(10)];
    vec![ident("d", 0), assign(1), gt(2), group(body, 3)]
}

#[test]
fn empty_div_compiles_to_cast_element() {
    let sch = standard_schema();
    let out = compile(empty_div_invocation(), &sch).unwrap();
    assert_eq!(out.document, b("d"));
    assert_eq!(out.cast, Some(b("HtmlDivElement")));
    match &out.code {
        Code::NewElement { name, sets, kids } => {
            assert_eq!(name, &b("div"));
            assert_eq!(sets.len(), 0);
            assert_eq!(kids.len(), 0);
        }
        other => panic!("expected element construction, got {:?}", other),
    }
}

#[test]
fn compiling_twice_gives_identical_output() {
    let sch = standard_schema();
    let out1 = compile(empty_div_invocation(), &sch).unwrap();
    let out2 = compile(empty_div_invocation(), &sch).unwrap();
    assert_eq!(format!("{:?}", out1), format!("{:?}", out2));
}

#[test]
fn fragment_root_gets_no_cast() {
    let sch = standard_schema();
    let toks = vec![lt(0), gt(1), lt(2), slash(3), gt(4)];
    let out = expand(&toks, &sch).unwrap();
    assert_eq!(out.cast, None);
    assert!(matches!(&out.code, Code::NewFragment { .. }));
}

#[test]
fn embedded_root_gets_no_cast() {
    let sch = standard_schema();
    let toks = vec![group(vec![ident("x", 1)], 0)];
    let out = expand(&toks, &sch).unwrap();
    assert_eq!(out.cast, None);
    match &out.code {
        Code::EmbedValue { expr, .. } => assert_eq!(expr, &b("x")),
        other => panic!("expected an embedding site, got {:?}", other),
    }
}

#[test]
fn component_root_gets_no_cast() {
    let sch = standard_schema();
    let toks = vec![lt(0), ident("Foo", 1), slash(2), gt(3)];
    let out = expand(&toks, &sch).unwrap();
    assert_eq!(out.cast, None);
    match &out.code {
        Code::NewComponent { name, fields, kids } => {
            assert_eq!(name, &b("Foo"));
            assert_eq!(fields.len(), 0);
            assert_eq!(kids.len(), 0);
        }
        other => panic!("expected component construction, got {:?}", other),
    }
}

#[test]
fn schema_known_root_gets_its_type_cast() {
    let sch = standard_schema();
    let toks = vec![lt(0), ident("span", 1), slash(2), gt(3)];
    let out = expand(&toks, &sch).unwrap();
    assert_eq!(out.cast, Some(b("HtmlSpanElement")));
}

#[test]
fn unknown_lowercase_tag_fails() {
    let sch = standard_schema();
    let toks = vec![lt(0), ident("foo", 1), gt(2), lt(3), slash(4), ident("foo", 5), gt(6)];
    match expand(&toks, &sch) {
        Err(Error::UnknownTag { name, pos }) => {
            assert_eq!(name, b("foo"));
            assert_eq!(pos, 1);
        }
        other => panic!("expected an unknown-tag diagnostic, got {:?}", other),
    }
}

#[test]
fn unknown_tag_below_the_root_fails() {
    let sch = standard_schema();
    let toks = vec![
        lt(0),
        ident("div", 1),
        gt(2),
        lt(3),
        ident("foo", 4),
        slash(5),
        gt(6),
        lt(7),
        slash(8),
        ident("div", 9),
        gt(10),
    ];
    match expand(&toks, &sch) {
        Err(Error::UnknownTag { name, pos }) => {
            assert_eq!(name, b("foo"));
            assert_eq!(pos, 4);
        }
        other => panic!("expected an unknown-tag diagnostic, got {:?}", other),
    }
}

#[test]
fn capitalized_tag_is_never_unknown() {
    let sch = standard_schema();
    let toks = vec![lt(0), ident("Foo", 1), gt(2), lt(3), slash(4), ident("Foo", 5), gt(6)];
    let out = expand(&toks, &sch).unwrap();
    assert!(matches!(&out.code, Code::NewComponent { .. }));
}

#[test]
fn attributes_render_in_source_order() {
    let sch = standard_schema();
    let toks = vec![
        lt(0),
        ident("div", 1),
        ident("class", 2),
        assign(3),
        lit("\"1\"", 4),
        ident("id", 5),
        assign(6),
        lit("\"2\"", 7),
        gt(8),
        lt(9),
        slash(10),
        ident("div", 11),
        gt(12),
    ];
    let out = expand(&toks, &sch).unwrap();
    match &out.code {
        Code::NewElement { sets, .. } => {
            assert_eq!(sets.len(), 2);
            assert_eq!(sets[0].name, b("class"));
            assert_eq!(sets[1].name, b("id"));
        }
        other => panic!("expected element construction, got {:?}", other),
    }
}

#[test]
fn string_literal_attribute_passes_through() {
    let sch = standard_schema();
    let toks = vec![lt(0), ident("div", 1), ident("class", 2), assign(3), lit("\"baz\"", 4), slash(
        5,
    ), gt(6)];
    let out = expand(&toks, &sch).unwrap();
    match &out.code {
        Code::NewElement { sets, .. } => match &sets[0].value {
            AttrCode::LitText { text } => assert_eq!(text, &b("\"baz\"")),
            other => panic!("expected literal passthrough, got {:?}", other),
        },
        other => panic!("expected element construction, got {:?}", other),
    }
}

#[test]
fn computed_attribute_gets_one_conversion() {
    let sch = standard_schema();
    let toks = vec![
        lt(0),
        ident("div", 1),
        ident("class", 2),
        assign(3),
        group(vec![ident("x", 5)], 4),
        slash(6),
        gt(7),
    ];
    let out = expand(&toks, &sch).unwrap();
    match &out.code {
        Code::NewElement { sets, .. } => match &sets[0].value {
            AttrCode::ConvertToText { expr, .. } => assert_eq!(expr, &b("x")),
            other => panic!("expected a text conversion, got {:?}", other),
        },
        other => panic!("expected element construction, got {:?}", other),
    }
}

#[test]
fn numeric_literal_attribute_gets_one_conversion() {
    let sch = standard_schema();
    let toks = vec![lt(0), ident("div", 1), ident("class", 2), assign(3), lit("27", 4), slash(5), gt(
        6,
    )];
    let out = expand(&toks, &sch).unwrap();
    match &out.code {
        Code::NewElement { sets, .. } => match &sets[0].value {
            AttrCode::ConvertToText { expr, .. } => assert_eq!(expr, &b("27")),
            other => panic!("expected a text conversion, got {:?}", other),
        },
        other => panic!("expected element construction, got {:?}", other),
    }
}

#[test]
fn disallowed_attribute_fails() {
    let sch = standard_schema();
    let toks = vec![lt(0), ident("div", 1), ident("href", 2), assign(3), lit("\"x\"", 4), slash(5), gt(
        6,
    )];
    match expand(&toks, &sch) {
        Err(Error::InvalidAttr { attr, tag, pos }) => {
            assert_eq!(attr, b("href"));
            assert_eq!(tag, b("div"));
            assert_eq!(pos, 2);
        }
        other => panic!("expected an invalid-attribute diagnostic, got {:?}", other),
    }
}

#[test]
fn component_fields_keep_values_verbatim() {
    let sch = standard_schema();
    let toks = vec![
        lt(0),
        ident("Foo", 1),
        ident("color", 2),
        assign(3),
        lit("\"red\"", 4),
        gt(5),
        lit("\"Hi\"", 6),
        lt(7),
        slash(8),
        ident("Foo", 9),
        gt(10),
    ];
    let out = expand(&toks, &sch).unwrap();
    assert_eq!(out.cast, None);
    match &out.code {
        Code::NewComponent { name, fields, kids } => {
            assert_eq!(name, &b("Foo"));
            assert_eq!(fields.len(), 1);
            assert_eq!(fields[0].name, b("color"));
            match &fields[0].value {
                domsl::ast::AttrValue::LitTok { text, .. } => assert_eq!(text, &b("\"red\"")),
                other => panic!("expected the literal verbatim, got {:?}", other),
            }
            assert_eq!(kids.len(), 1);
            match &kids[0] {
                Code::EmbedValue { expr, .. } => assert_eq!(expr, &b("\"Hi\"")),
                other => panic!("expected an embedding site, got {:?}", other),
            }
        }
        other => panic!("expected component construction, got {:?}", other),
    }
}

#[test]
fn empty_schema_knows_no_tags() {
    let sch = Schema::empty(Vec::new());
    let toks = vec![lt(0), ident("div", 1), slash(2), gt(3)];
    assert!(matches!(expand(&toks, &sch), Err(Error::UnknownTag { .. })));
}
