//! Tests of the markup parser and the invocation-form parser.

use domsl::ast::{AttrValue, MarkupNode};
use domsl::error::Error;
use domsl::parse::{parse, parse_invocation};
use domsl::tok::{Tok, flatten_toks};

fn b(s: &str) -> Vec<u8> {
    s.as_bytes().to_vec()
}

fn lt(pos: usize) -> Tok {
    Tok::Lt { pos }
}

fn gt(pos: usize) -> Tok {
    Tok::Gt { pos }
}

fn slash(pos: usize) -> Tok {
    Tok::Slash { pos }
}

fn assign(pos: usize) -> Tok {
    Tok::Assign { pos }
}

fn ident(s: &str, pos: usize) -> Tok {
    Tok::Ident { text: b(s), pos }
}

fn lit(s: &str, pos: usize) -> Tok {
    Tok::Lit { text: b(s), pos }
}

fn group(toks: Vec<Tok>, pos: usize) -> Tok {
    Tok::Group { toks, pos }
}

fn raw(s: &str, pos: usize) -> Tok {
    Tok::Raw { text: b(s), pos }
}

#[test]
fn parse_empty_element() {
    let toks = vec![lt(0), ident("div", 1), gt(2), lt(3), slash(4), ident("div", 5), gt(6)];
    match parse(&toks).unwrap() {
        MarkupNode::Element { name, name_pos, attrs, children } => {
            assert_eq!(name, b("div"));
            assert_eq!(name_pos, 1);
            assert_eq!(attrs.len(), 0);
            assert_eq!(children.len(), 0);
        }
        other => panic!("expected an element, got {:?}", other),
    }
}

#[test]
fn parse_self_closing_element() {
    let toks = vec![lt(0), ident("br", 1), slash(2), gt(3)];
    match parse(&toks).unwrap() {
        MarkupNode::SelfClosing { name, attrs, .. } => {
            assert_eq!(name, b("br"));
            assert_eq!(attrs.len(), 0);
        }
        other => panic!("expected a self-closing element, got {:?}", other),
    }
}

#[test]
fn parse_attributes_in_order() {
    let toks = vec![
        lt(0),
        ident("div", 1),
        ident("a", 2),
        assign(3),
        lit("\"1\"", 4),
        ident("b", 5),
        assign(6),
        group(vec![ident("x", 8)], 7),
        gt(9),
        lt(10),
        slash(11),
        ident("div", 12),
        gt(13),
    ];
    match parse(&toks).unwrap() {
        MarkupNode::Element { attrs, .. } => {
            assert_eq!(attrs.len(), 2);
            assert_eq!(attrs[0].name, b("a"));
            match &attrs[0].value {
                AttrValue::LitTok { text, .. } => assert_eq!(text, &b("\"1\"")),
                other => panic!("expected a literal value, got {:?}", other),
            }
            assert_eq!(attrs[1].name, b("b"));
            match &attrs[1].value {
                AttrValue::Braced { expr, .. } => assert_eq!(expr, &b("x")),
                other => panic!("expected a braced value, got {:?}", other),
            }
        }
        other => panic!("expected an element, got {:?}", other),
    }
}

#[test]
fn parse_nested_children_in_order() {
    let toks = vec![
        lt(0),
        ident("div", 1),
        gt(2),
        lt(3),
        ident("span", 4),
        slash(5),
        gt(6),
        lit("\"Hello\"", 7),
        group(vec![ident("x", 9)], 8),
        lt(10),
        slash(11),
        ident("div", 12),
        gt(13),
    ];
    match parse(&toks).unwrap() {
        MarkupNode::Element { children, .. } => {
            assert_eq!(children.len(), 3);
            assert!(matches!(&children[0], MarkupNode::SelfClosing { .. }));
            match &children[1] {
                MarkupNode::Embedded { expr, .. } => assert_eq!(expr, &b("\"Hello\"")),
                other => panic!("expected embedded content, got {:?}", other),
            }
            match &children[2] {
                MarkupNode::Embedded { expr, .. } => assert_eq!(expr, &b("x")),
                other => panic!("expected embedded content, got {:?}", other),
            }
        }
        other => panic!("expected an element, got {:?}", other),
    }
}

#[test]
fn parse_fragment() {
    let toks = vec![
        lt(0),
        gt(1),
        group(vec![ident("a", 3)], 2),
        group(vec![ident("c", 5)], 4),
        lt(6),
        slash(7),
        gt(8),
    ];
    match parse(&toks).unwrap() {
        MarkupNode::Fragment { children } => {
            assert_eq!(children.len(), 2);
        }
        other => panic!("expected a fragment, got {:?}", other),
    }
}

#[test]
fn parse_root_content() {
    let toks = vec![lit("\"hi\"", 0)];
    match parse(&toks).unwrap() {
        MarkupNode::Embedded { expr, .. } => assert_eq!(expr, b("\"hi\"")),
        other => panic!("expected embedded content, got {:?}", other),
    }
}

#[test]
fn expression_text_is_flattened() {
    let toks = vec![group(vec![ident("a", 1), raw("+", 2), ident("c", 3)], 0)];
    match parse(&toks).unwrap() {
        MarkupNode::Embedded { expr, .. } => assert_eq!(expr, b("a + c")),
        other => panic!("expected embedded content, got {:?}", other),
    }
}

#[test]
fn flatten_renders_groups_in_braces() {
    let toks = vec![ident("vec", 0), raw("!", 1), group(vec![lit("1", 3)], 2)];
    assert_eq!(flatten_toks(&toks), b("vec ! {1}"));
}

#[test]
fn unclosed_tag_is_unexpected_end() {
    let toks = vec![lt(0), ident("div", 1), gt(2)];
    assert!(matches!(parse(&toks), Err(Error::UnexpectedEnd)));
}

#[test]
fn empty_input_is_unexpected_end() {
    let toks: Vec<Tok> = Vec::new();
    assert!(matches!(parse(&toks), Err(Error::UnexpectedEnd)));
}

#[test]
fn mismatched_close_name_is_rejected() {
    let toks = vec![lt(0), ident("div", 1), gt(2), lt(3), slash(4), ident("span", 5), gt(6)];
    match parse(&toks) {
        Err(Error::UnexpectedToken { pos }) => assert_eq!(pos, 5),
        other => panic!("expected an unexpected-token diagnostic, got {:?}", other),
    }
}

#[test]
fn stray_close_is_unexpected_item() {
    let toks = vec![lt(0), slash(1), ident("div", 2), gt(3)];
    match parse(&toks) {
        Err(Error::UnexpectedItem { pos }) => assert_eq!(pos, 0),
        other => panic!("expected an unexpected-item diagnostic, got {:?}", other),
    }
}

#[test]
fn trailing_tokens_after_root_are_rejected() {
    let toks = vec![
        lt(0),
        ident("br", 1),
        slash(2),
        gt(3),
        lt(4),
        ident("br", 5),
        slash(6),
        gt(7),
    ];
    match parse(&toks) {
        Err(Error::UnexpectedToken { pos }) => assert_eq!(pos, 4),
        other => panic!("expected an unexpected-token diagnostic, got {:?}", other),
    }
}

#[test]
fn fragment_closed_by_named_tag_is_unexpected_item() {
    let toks = vec![lt(0), gt(1), lt(2), slash(3), ident("div", 4), gt(5)];
    match parse(&toks) {
        Err(Error::UnexpectedItem { pos }) => assert_eq!(pos, 2),
        other => panic!("expected an unexpected-item diagnostic, got {:?}", other),
    }
}

#[test]
fn element_closed_by_fragment_close_is_unexpected_item() {
    let toks = vec![lt(0), ident("div", 1), gt(2), lt(3), slash(4), gt(5)];
    match parse(&toks) {
        Err(Error::UnexpectedItem { pos }) => assert_eq!(pos, 3),
        other => panic!("expected an unexpected-item diagnostic, got {:?}", other),
    }
}

#[test]
fn attribute_without_assign_is_rejected() {
    let toks = vec![lt(0), ident("div", 1), ident("class", 2), gt(3)];
    match parse(&toks) {
        Err(Error::UnexpectedToken { pos }) => assert_eq!(pos, 3),
        other => panic!("expected an unexpected-token diagnostic, got {:?}", other),
    }
}

#[test]
fn attribute_with_bare_ident_value_is_rejected() {
    let toks = vec![lt(0), ident("div", 1), ident("class", 2), assign(3), ident("x", 4), gt(5)];
    match parse(&toks) {
        Err(Error::UnexpectedToken { pos }) => assert_eq!(pos, 4),
        other => panic!("expected an unexpected-token diagnostic, got {:?}", other),
    }
}

#[test]
fn invocation_form_is_split() {
    let body = vec![lt(4), ident("br", 5), slash(6), gt(7)];
    let toks = vec![ident("doc", 0), assign(1), gt(2), group(body, 3)];
    let (document, body) = parse_invocation(toks).unwrap();
    assert_eq!(document, b("doc"));
    assert_eq!(body.len(), 4);
    assert!(matches!(&body[0], Tok::Lt { pos: 4 }));
}

#[test]
fn invocation_missing_arrow_is_rejected() {
    let toks = vec![ident("doc", 0), gt(1), group(Vec::new(), 2)];
    match parse_invocation(toks) {
        Err(Error::UnexpectedToken { pos }) => assert_eq!(pos, 1),
        other => panic!("expected an unexpected-token diagnostic, got {:?}", other),
    }
}

#[test]
fn invocation_missing_identifier_is_rejected() {
    let toks = vec![lit("1", 0), assign(1), gt(2), group(Vec::new(), 3)];
    match parse_invocation(toks) {
        Err(Error::UnexpectedToken { pos }) => assert_eq!(pos, 0),
        other => panic!("expected an unexpected-token diagnostic, got {:?}", other),
    }
}

#[test]
fn invocation_without_body_is_rejected() {
    let toks = vec![ident("doc", 0), assign(1), gt(2)];
    assert!(matches!(parse_invocation(toks), Err(Error::UnexpectedEnd)));
}

#[test]
fn invocation_with_trailing_tokens_is_rejected() {
    let toks = vec![ident("doc", 0), assign(1), gt(2), group(Vec::new(), 3), ident("z", 4)];
    match parse_invocation(toks) {
        Err(Error::UnexpectedToken { pos }) => assert_eq!(pos, 4),
        other => panic!("expected an unexpected-token diagnostic, got {:?}", other),
    }
}
