//! Tests of component lowering: the generated data object's shape, the
//! construction call's argument order, and the rejected declarations.

use domsl::component::{CallArg, ComponentFn, Marker, ParamDecl, ParamPat, run};
use domsl::error::{Error, FnModifier};
use domsl::tok::Tok;

fn b(s: &str) -> Vec<u8> {
    s.as_bytes().to_vec()
}

fn ident(s: &str, pos: usize) -> Tok {
    Tok::Ident { text: b(s), pos }
}

fn plain(name: &str, ty: &str) -> ParamDecl {
    ParamDecl { pat: ParamPat::Plain { name: b(name) }, ty: b(ty), markers: Vec::new() }
}

fn children_param(name: &str, ty: &str, pos: usize) -> ParamDecl {
    ParamDecl {
        pat: ParamPat::Plain { name: b(name) },
        ty: b(ty),
        markers: vec![Marker { name: b("children"), pos }],
    }
}

fn foo_fn(params: Vec<ParamDecl>) -> ComponentFn {
    ComponentFn {
        name: b("foo_card"),
        ret: Some(b("web_sys::HtmlDivElement")),
        asyncness: None,
        unsafety: None,
        abi: None,
        variadic: None,
        params,
    }
}

#[test]
fn lowering_splits_fields_and_children() {
    let attr = vec![ident("Foo", 0)];
    let f = foo_fn(vec![
        plain("color", "&str"),
        children_param("kids", "Vec<web_sys::Node>", 5),
        plain("size", "u32"),
    ]);
    let l = run(&attr, &f).unwrap();
    assert_eq!(l.component_name, b("Foo"));
    assert_eq!(l.fn_name, b("foo_card"));
    assert_eq!(l.ret, b("web_sys::HtmlDivElement"));
    assert_eq!(l.fields.len(), 2);
    assert_eq!(l.fields[0].name, b("color"));
    assert_eq!(l.fields[0].ty, b("&str"));
    assert_eq!(l.fields[1].name, b("size"));
    assert_eq!(l.call_args.len(), 3);
    match &l.call_args[0] {
        CallArg::Field { name } => assert_eq!(name, &b("color")),
        other => panic!("expected a field argument, got {:?}", other),
    }
    assert!(matches!(&l.call_args[1], CallArg::Children));
    match &l.call_args[2] {
        CallArg::Field { name } => assert_eq!(name, &b("size")),
        other => panic!("expected a field argument, got {:?}", other),
    }
}

#[test]
fn lowering_without_children_sink() {
    let attr = vec![ident("Foo", 0)];
    let f = foo_fn(vec![plain("color", "&str")]);
    let l = run(&attr, &f).unwrap();
    assert_eq!(l.fields.len(), 1);
    assert_eq!(l.call_args.len(), 1);
    assert!(matches!(&l.call_args[0], CallArg::Field { .. }));
}

#[test]
fn missing_component_name_is_rejected() {
    let attr: Vec<Tok> = Vec::new();
    let f = foo_fn(Vec::new());
    assert!(matches!(run(&attr, &f), Err(Error::MissingComponentName)));
}

#[test]
fn non_identifier_component_name_is_rejected() {
    let attr = vec![Tok::Lit { text: b("\"Foo\""), pos: 2 }];
    let f = foo_fn(Vec::new());
    match run(&attr, &f) {
        Err(Error::ExpectedComponentName { pos }) => assert_eq!(pos, 2),
        other => panic!("expected a component-name diagnostic, got {:?}", other),
    }
}

#[test]
fn extra_annotation_token_is_rejected() {
    let attr = vec![ident("Foo", 0), ident("Bar", 1)];
    let f = foo_fn(Vec::new());
    match run(&attr, &f) {
        Err(Error::ExtraComponentToken { pos }) => assert_eq!(pos, 1),
        other => panic!("expected an extra-token diagnostic, got {:?}", other),
    }
}

#[test]
fn missing_result_type_is_rejected() {
    let attr = vec![ident("Foo", 0)];
    let mut f = foo_fn(Vec::new());
    f.ret = None;
    assert!(matches!(run(&attr, &f), Err(Error::MissingReturnType)));
}

#[test]
fn asynchronous_function_is_rejected() {
    let attr = vec![ident("Foo", 0)];
    let mut f = foo_fn(Vec::new());
    f.asyncness = Some(4);
    match run(&attr, &f) {
        Err(Error::UnsupportedModifier { which, pos }) => {
            assert_eq!(which, FnModifier::Asynchronous);
            assert_eq!(pos, 4);
        }
        other => panic!("expected a modifier diagnostic, got {:?}", other),
    }
}

#[test]
fn unsafe_marked_function_is_rejected() {
    let attr = vec![ident("Foo", 0)];
    let mut f = foo_fn(Vec::new());
    f.unsafety = Some(5);
    match run(&attr, &f) {
        Err(Error::UnsupportedModifier { which, pos }) => {
            assert_eq!(which, FnModifier::UnsafeMarked);
            assert_eq!(pos, 5);
        }
        other => panic!("expected a modifier diagnostic, got {:?}", other),
    }
}

#[test]
fn foreign_abi_function_is_rejected() {
    let attr = vec![ident("Foo", 0)];
    let mut f = foo_fn(Vec::new());
    f.abi = Some(6);
    match run(&attr, &f) {
        Err(Error::UnsupportedModifier { which, pos }) => {
            assert_eq!(which, FnModifier::ForeignAbi);
            assert_eq!(pos, 6);
        }
        other => panic!("expected a modifier diagnostic, got {:?}", other),
    }
}

#[test]
fn variadic_function_is_rejected() {
    let attr = vec![ident("Foo", 0)];
    let mut f = foo_fn(Vec::new());
    f.variadic = Some(7);
    match run(&attr, &f) {
        Err(Error::UnsupportedModifier { which, pos }) => {
            assert_eq!(which, FnModifier::Variadic);
            assert_eq!(pos, 7);
        }
        other => panic!("expected a modifier diagnostic, got {:?}", other),
    }
}

#[test]
fn receiver_parameter_is_rejected() {
    let attr = vec![ident("Foo", 0)];
    let f = foo_fn(vec![ParamDecl {
        pat: ParamPat::Receiver { pos: 3 },
        ty: b("Self"),
        markers: Vec::new(),
    }]);
    match run(&attr, &f) {
        Err(Error::ReceiverParam { pos }) => assert_eq!(pos, 3),
        other => panic!("expected a receiver diagnostic, got {:?}", other),
    }
}

#[test]
fn pattern_parameter_is_rejected() {
    let attr = vec![ident("Foo", 0)];
    let f = foo_fn(vec![ParamDecl {
        pat: ParamPat::Other { pos: 8 },
        ty: b("(u32, u32)"),
        markers: Vec::new(),
    }]);
    match run(&attr, &f) {
        Err(Error::PatternParam { pos }) => assert_eq!(pos, 8),
        other => panic!("expected a pattern diagnostic, got {:?}", other),
    }
}

#[test]
fn second_children_marker_is_rejected() {
    let attr = vec![ident("Foo", 0)];
    let f = foo_fn(vec![
        children_param("kids", "Vec<web_sys::Node>", 4),
        children_param("more", "Vec<web_sys::Node>", 9),
    ]);
    match run(&attr, &f) {
        Err(Error::DuplicateChildrenMarker { pos }) => assert_eq!(pos, 9),
        other => panic!("expected a duplicate-marker diagnostic, got {:?}", other),
    }
}

#[test]
fn duplicate_marker_on_one_parameter_is_rejected() {
    let attr = vec![ident("Foo", 0)];
    let f = foo_fn(vec![ParamDecl {
        pat: ParamPat::Plain { name: b("kids") },
        ty: b("Vec<web_sys::Node>"),
        markers: vec![
            Marker { name: b("children"), pos: 4 },
            Marker { name: b("children"), pos: 5 },
        ],
    }]);
    match run(&attr, &f) {
        Err(Error::DuplicateChildrenMarker { pos }) => assert_eq!(pos, 5),
        other => panic!("expected a duplicate-marker diagnostic, got {:?}", other),
    }
}

#[test]
fn unknown_marker_is_rejected() {
    let attr = vec![ident("Foo", 0)];
    let f = foo_fn(vec![ParamDecl {
        pat: ParamPat::Plain { name: b("kids") },
        ty: b("u32"),
        markers: vec![Marker { name: b("childs"), pos: 4 }],
    }]);
    match run(&attr, &f) {
        Err(Error::UnknownMarker { name, pos }) => {
            assert_eq!(name, b("childs"));
            assert_eq!(pos, 4);
        }
        other => panic!("expected an unknown-marker diagnostic, got {:?}", other),
    }
}
