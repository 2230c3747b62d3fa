//! Tests of value dispatch and of evaluating generated code over the
//! model DOM.

use domsl::specialization_hack::{AsStrTag, Caps, DispatchRule, DisplayTag, IterNodeTag, IterStrTag, NodeTag,
    select_rule};
use domsl::dom::{DomNode, append_child};
use domsl::eval::{Binding, Value, eval_code};
use domsl::jsx::expand;
use domsl::tags::standard_schema;
use domsl::tok::Tok;

fn b(s: &str) -> Vec<u8> {
    s.as_bytes().to_vec()
}

fn lt(pos: usize) -> Tok {
    Tok::Lt { pos }
}

fn gt(pos: usize) -> Tok {
    Tok::Gt { pos }
}

fn slash(pos: usize) -> Tok {
    Tok::Slash { pos }
}

fn assign(pos: usize) -> Tok {
    Tok::Assign { pos }
}

fn ident(s: &str, pos: usize) -> Tok {
    Tok::Ident { text: b(s), pos }
}

fn lit(s: &str, pos: usize) -> Tok {
    Tok::Lit { text: b(s), pos }
}

fn group(toks: Vec<Tok>, pos: usize) -> Tok {
    Tok::Group { toks, pos }
}

fn caps_none() -> Caps {
    Caps {
        node_like: false,
        string_like: false,
        text_convertible: false,
        iter_node_like: false,
        iter_string_like: false,
        iter_text_convertible: false,
    }
}

fn elem(tag: &str) -> DomNode {
    DomNode::Element { tag: b(tag), attrs: Vec::new(), kids: Vec::new() }
}

#[test]
fn node_like_beats_string_like() {
    let c = Caps { node_like: true, string_like: true, ..caps_none() };
    assert_eq!(select_rule(&c), Some(DispatchRule::Node));
}

#[test]
fn priority_is_most_specific_first() {
    assert_eq!(select_rule(&Caps { node_like: true, ..caps_none() }), Some(DispatchRule::Node));
    assert_eq!(select_rule(&Caps { string_like: true, ..caps_none() }), Some(DispatchRule::Str));
    assert_eq!(
        select_rule(&Caps { string_like: true, text_convertible: true, ..caps_none() }),
        Some(DispatchRule::Str)
    );
    assert_eq!(
        select_rule(&Caps { text_convertible: true, ..caps_none() }),
        Some(DispatchRule::Display)
    );
    assert_eq!(
        select_rule(&Caps { iter_node_like: true, iter_string_like: true, ..caps_none() }),
        Some(DispatchRule::IterNode)
    );
    assert_eq!(
        select_rule(&Caps { iter_string_like: true, iter_text_convertible: true, ..caps_none() }),
        Some(DispatchRule::IterStr)
    );
    assert_eq!(
        select_rule(&Caps { iter_text_convertible: true, ..caps_none() }),
        Some(DispatchRule::IterDisplay)
    );
}

#[test]
fn no_capability_no_rule() {
    assert_eq!(select_rule(&caps_none()), None);
}

#[test]
fn tags_convert_values() {
    let n = NodeTag.into_node(elem("em"));
    assert!(matches!(n, DomNode::Element { .. }));

    let t = AsStrTag.into_node(b("hi"));
    match t {
        DomNode::Text { text } => assert_eq!(text, b("hi")),
        other => panic!("expected a text node, got {:?}", other),
    }

    let t = DisplayTag.into_node(b("27"));
    assert!(matches!(t, DomNode::Text { .. }));

    let f = IterNodeTag.into_node(vec![elem("em"), elem("strong")]);
    match f {
        DomNode::Fragment { kids } => assert_eq!(kids.len(), 2),
        other => panic!("expected a container, got {:?}", other),
    }

    let f = IterStrTag.into_node(vec![b("hi"), b("yo")]);
    match f {
        DomNode::Fragment { kids } => {
            assert_eq!(kids.len(), 2);
            match &kids[0] {
                DomNode::Text { text } => assert_eq!(text, &b("hi")),
                other => panic!("expected a text node, got {:?}", other),
            }
        }
        other => panic!("expected a container, got {:?}", other),
    }
}

#[test]
fn appending_a_fragment_splices_it() {
    let mut kids = vec![elem("em")];
    let frag = DomNode::Fragment {
        kids: vec![DomNode::Text { text: b("a") }, DomNode::Text { text: b("c") }],
    };
    append_child(&mut kids, frag);
    assert_eq!(kids.len(), 3);
    append_child(&mut kids, elem("strong"));
    assert_eq!(kids.len(), 4);
}

#[test]
fn empty_div_evaluates_to_childless_element() {
    let sch = standard_schema();
    let toks = vec![lt(0), ident("div", 1), gt(2), lt(3), slash(4), ident("div", 5), gt(6)];
    let out = expand(&toks, &sch).unwrap();
    let env: Vec<Binding> = Vec::new();
    match eval_code(&out.code, &env).unwrap() {
        DomNode::Element { tag, attrs, kids } => {
            assert_eq!(tag, b("div"));
            assert_eq!(attrs.len(), 0);
            assert_eq!(kids.len(), 0);
        }
        other => panic!("expected an element, got {:?}", other),
    }
}

#[test]
fn span_child_with_text() {
    let sch = standard_schema();
    let toks = vec![
        lt(0),
        ident("div", 1),
        gt(2),
        lt(3),
        ident("span", 4),
        gt(5),
        lit("\"Hello\"", 6),
        lt(7),
        slash(8),
        ident("span", 9),
        gt(10),
        lt(11),
        slash(12),
        ident("div", 13),
        gt(14),
    ];
    let out = expand(&toks, &sch).unwrap();
    assert_eq!(out.cast, Some(b("HtmlDivElement")));
    let env: Vec<Binding> = Vec::new();
    match eval_code(&out.code, &env).unwrap() {
        DomNode::Element { tag, kids, .. } => {
            assert_eq!(tag, b("div"));
            assert_eq!(kids.len(), 1);
            match &kids[0] {
                DomNode::Element { tag, kids, .. } => {
                    assert_eq!(tag, &b("span"));
                    assert_eq!(kids.len(), 1);
                    match &kids[0] {
                        DomNode::Text { text } => assert_eq!(text, &b("Hello")),
                        other => panic!("expected a text node, got {:?}", other),
                    }
                }
                other => panic!("expected a span, got {:?}", other),
            }
        }
        other => panic!("expected an element, got {:?}", other),
    }
}

#[test]
fn fragment_root_with_two_nodes_keeps_their_order() {
    let sch = standard_schema();
    let toks = vec![
        lt(0),
        gt(1),
        group(vec![ident("a", 3)], 2),
        group(vec![ident("c", 5)], 4),
        lt(6),
        slash(7),
        gt(8),
    ];
    let out = expand(&toks, &sch).unwrap();
    assert_eq!(out.cast, None);
    let env = vec![
        Binding { name: b("a"), value: Value::Node { node: elem("em") } },
        Binding { name: b("c"), value: Value::Node { node: elem("strong") } },
    ];
    match eval_code(&out.code, &env).unwrap() {
        DomNode::Fragment { kids } => {
            assert_eq!(kids.len(), 2);
            match &kids[0] {
                DomNode::Element { tag, .. } => assert_eq!(tag, &b("em")),
                other => panic!("expected an element, got {:?}", other),
            }
            match &kids[1] {
                DomNode::Element { tag, .. } => assert_eq!(tag, &b("strong")),
                other => panic!("expected an element, got {:?}", other),
            }
        }
        other => panic!("expected a container, got {:?}", other),
    }
}

#[test]
fn embedded_values_of_every_kind() {
    let sch = standard_schema();
    let toks = vec![
        lt(0),
        ident("div", 1),
        gt(2),
        group(vec![ident("p_node", 4)], 3),
        group(vec![ident("s1", 6)], 5),
        group(vec![lit("27", 8)], 7),
        group(vec![ident("node_vec", 10)], 9),
        group(vec![ident("str_vec", 12)], 11),
        lt(13),
        slash(14),
        ident("div", 15),
        gt(16),
    ];
    let out = expand(&toks, &sch).unwrap();
    let env = vec![
        Binding { name: b("p_node"), value: Value::Node { node: elem("p") } },
        Binding { name: b("s1"), value: Value::Str { text: b("s1") } },
        Binding {
            name: b("node_vec"),
            value: Value::IterNode { items: vec![elem("span"), elem("span")] },
        },
        Binding { name: b("str_vec"), value: Value::IterStr { items: vec![b("hi"), b("yo")] } },
    ];
    match eval_code(&out.code, &env).unwrap() {
        DomNode::Element { kids, .. } => {
            // the two iterables arrive as containers and are spliced:
            // p, s1-text, 27-text, span, span, hi-text, yo-text
            assert_eq!(kids.len(), 7);
            assert!(matches!(&kids[0], DomNode::Element { .. }));
            match &kids[1] {
                DomNode::Text { text } => assert_eq!(text, &b("s1")),
                other => panic!("expected a text node, got {:?}", other),
            }
            match &kids[2] {
                DomNode::Text { text } => assert_eq!(text, &b("27")),
                other => panic!("expected a text node, got {:?}", other),
            }
            assert!(matches!(&kids[3], DomNode::Element { .. }));
            assert!(matches!(&kids[4], DomNode::Element { .. }));
            match &kids[5] {
                DomNode::Text { text } => assert_eq!(text, &b("hi")),
                other => panic!("expected a text node, got {:?}", other),
            }
            match &kids[6] {
                DomNode::Text { text } => assert_eq!(text, &b("yo")),
                other => panic!("expected a text node, got {:?}", other),
            }
        }
        other => panic!("expected an element, got {:?}", other),
    }
}

#[test]
fn attribute_values_evaluate() {
    let sch = standard_schema();
    let toks = vec![
        lt(0),
        ident("div", 1),
        ident("class", 2),
        assign(3),
        lit("\"baz\"", 4),
        ident("id", 5),
        assign(6),
        group(vec![ident("x", 8)], 7),
        slash(9),
        gt(10),
    ];
    let out = expand(&toks, &sch).unwrap();
    let env = vec![Binding { name: b("x"), value: Value::Str { text: b("five") } }];
    match eval_code(&out.code, &env).unwrap() {
        DomNode::Element { attrs, .. } => {
            assert_eq!(attrs.len(), 2);
            assert_eq!(attrs[0].name, b("class"));
            assert_eq!(attrs[0].value, b("baz"));
            assert_eq!(attrs[1].name, b("id"));
            assert_eq!(attrs[1].value, b("five"));
        }
        other => panic!("expected an element, got {:?}", other),
    }
}

#[test]
fn unbound_expression_evaluates_to_nothing() {
    let sch = standard_schema();
    let toks = vec![group(vec![ident("mystery", 1)], 0)];
    let out = expand(&toks, &sch).unwrap();
    let env: Vec<Binding> = Vec::new();
    assert!(eval_code(&out.code, &env).is_none());
}

#[test]
fn component_construction_is_not_evaluable() {
    let sch = standard_schema();
    let toks = vec![lt(0), ident("Foo", 1), slash(2), gt(3)];
    let out = expand(&toks, &sch).unwrap();
    let env: Vec<Binding> = Vec::new();
    assert!(eval_code(&out.code, &env).is_none());
}
