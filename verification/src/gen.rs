//! The code generator: markup tree to construction code.
//!
//! The output is an expression tree of DOM-construction operations that
//! mirrors the markup: create an element by name, set its attributes in
//! source order, append its lowered children in source order; create an
//! empty container for a fragment and append its children; construct a
//! component's data object from its attributes, lower its children into a
//! sequence and call its construction entry point; or evaluate an embedded
//! host expression once and route it through value dispatch.
//!
//! Validation runs here, depth first, and the first error aborts the
//! whole generation: a lowercase-leading element name must be in the
//! schema table, and each of its attribute names must be allowed on the
//! tag. Component references (names not starting with a lowercase letter)
//! are not checked against the schema, and neither are their field names.
//!
//! At the root only, a narrowing cast to the tag's node type is recorded
//! when and only when the root is a schema-known element; a fragment, an
//! embedded expression or a component root gets none.

use vstd::prelude::*;

use crate::ast::{Attr, AttrValue, AttrValueView, AttrView, MarkupNode, NodeView, attrs_view};
use crate::bytes::{spec_is_quoted, spec_starts_lowercase, starts_lowercase, is_quoted};
use crate::error::{Error, ErrorView};
use crate::schema::{Schema, SchemaView, TagInfo, TagInfoView, sp_attr_allowed, sp_find};

verus! {

broadcast use {
    vstd::std_specs::vec::axiom_vec_index_decreases,
    vstd::std_specs::vec::axiom_vec_decreases_to_view,
    vstd::seq::axiom_seq_index_decreases,
    vstd::seq::axiom_seq_subrange_decreases,
};

/// The mathematical model of an attribute value in generated code.
pub enum AttrCodeView {
    /// The literal's text becomes the attribute value directly, with no
    /// text-conversion call.
    LitText { text: Seq<u8> },
    /// The expression is rendered through exactly one text conversion.
    ConvertToText { expr: Seq<u8>, pos: int },
}

/// How an attribute's value is rendered: a string literal passes through
/// verbatim; any other value goes through one to-text conversion.
#[derive(Debug)]
pub enum AttrCode {
    LitText { text: Vec<u8> },
    ConvertToText { expr: Vec<u8>, pos: usize },
}

impl View for AttrCode {
    type V = AttrCodeView;

    open spec fn view(&self) -> AttrCodeView {
        match self {
            AttrCode::LitText { text } => AttrCodeView::LitText { text: text@ },
            AttrCode::ConvertToText { expr, pos } => AttrCodeView::ConvertToText {
                expr: expr@,
                pos: *pos as int,
            },
        }
    }
}

/// The mathematical model of one attribute-set operation.
pub struct AttrSetView {
    pub name: Seq<u8>,
    pub value: AttrCodeView,
}

/// One attribute-set operation of the generated code.
#[derive(Debug)]
pub struct AttrSet {
    pub name: Vec<u8>,
    pub value: AttrCode,
}

impl View for AttrSet {
    type V = AttrSetView;

    open spec fn view(&self) -> AttrSetView {
        AttrSetView { name: self.name@, value: self.value@ }
    }
}

/// The views of a sequence of attribute-set operations.
pub open spec fn sets_view(s: Seq<AttrSet>) -> Seq<AttrSetView> {
    s.map_values(|a: AttrSet| a@)
}

/// The mathematical model of one component field initializer.
pub struct FieldInitView {
    pub name: Seq<u8>,
    pub value: AttrValueView,
}

/// One named-field initializer of a component's data object; the value is
/// the attribute's value verbatim, with no conversion.
#[derive(Debug)]
pub struct FieldInit {
    pub name: Vec<u8>,
    pub value: AttrValue,
}

impl View for FieldInit {
    type V = FieldInitView;

    open spec fn view(&self) -> FieldInitView {
        FieldInitView { name: self.name@, value: self.value@ }
    }
}

/// The views of a sequence of field initializers.
pub open spec fn fields_view(s: Seq<FieldInit>) -> Seq<FieldInitView> {
    s.map_values(|f: FieldInit| f@)
}

/// The mathematical model of generated construction code.
pub enum CodeView {
    NewElement { name: Seq<u8>, sets: Seq<AttrSetView>, kids: Seq<CodeView> },
    NewFragment { kids: Seq<CodeView> },
    NewComponent { name: Seq<u8>, fields: Seq<FieldInitView>, kids: Seq<CodeView> },
    EmbedValue { expr: Seq<u8>, pos: int },
}

/// One expression of generated construction code, producing a DOM node:
/// create a named element, set its attributes in order and append its
/// children in order; create an empty container and append children;
/// construct a component object from its fields, hand it the lowered
/// children sequence and call its construction method; or evaluate an
/// embedded host expression once and convert it by value dispatch.
#[derive(Debug)]
pub enum Code {
    NewElement { name: Vec<u8>, sets: Vec<AttrSet>, kids: Vec<Code> },
    NewFragment { kids: Vec<Code> },
    NewComponent { name: Vec<u8>, fields: Vec<FieldInit>, kids: Vec<Code> },
    EmbedValue { expr: Vec<u8>, pos: usize },
}

/// The views of a sequence of code expressions.
pub open spec fn codes_view(s: Seq<Code>) -> Seq<CodeView>
    decreases s,
{
    if s.len() == 0 {
        Seq::empty()
    } else {
        codes_view(s.drop_last()).push(s.last().view())
    }
}

impl View for Code {
    type V = CodeView;

    open spec fn view(&self) -> CodeView
        decreases self,
    {
        match self {
            Code::NewElement { name, sets, kids } => CodeView::NewElement {
                name: name@,
                sets: sets_view(sets@),
                kids: codes_view(kids@),
            },
            Code::NewFragment { kids } => CodeView::NewFragment { kids: codes_view(kids@) },
            Code::NewComponent { name, fields, kids } => CodeView::NewComponent {
                name: name@,
                fields: fields_view(fields@),
                kids: codes_view(kids@),
            },
            Code::EmbedValue { expr, pos } => CodeView::EmbedValue { expr: expr@, pos: *pos as int },
        }
    }
}

/// `codes_view` maps the view over the sequence, element by element.
pub proof fn lemma_codes_view(s: Seq<Code>)
    ensures
        codes_view(s).len() == s.len(),
        forall|i: int|
            #![trigger codes_view(s)[i]]
            #![trigger s[i]@]
            0 <= i < s.len() ==> codes_view(s)[i] == s[i]@,
    decreases s,
{
    if s.len() > 0 {
        assert(codes_view(s) == codes_view(s.drop_last()).push(s.last().view()));
        lemma_codes_view(s.drop_last());
        assert forall|i: int| 0 <= i < s.len() implies codes_view(s)[i] == #[trigger] s[i]@ by {
            if i < s.len() - 1 {
                assert(s.drop_last()[i] == s[i]);
                assert(codes_view(s)[i] == codes_view(s.drop_last())[i]);
            } else {
                assert(codes_view(s)[i] == s.last()@);
            }
        }
    }
}

/// The mathematical model of the generator's output: the root expression
/// and the optional narrowing cast, as the name of the target node type.
pub struct GenOutView {
    pub code: CodeView,
    pub cast: Option<Seq<u8>>,
}

/// The view of an optional byte string.
pub open spec fn opt_bytes_view(o: Option<Vec<u8>>) -> Option<Seq<u8>> {
    match o {
        Some(v) => Some(v@),
        None => None,
    }
}

/// The generator's output: the root construction expression, and the name
/// of the node type to narrow the result to, present exactly when the
/// root is a schema-known element.
#[derive(Debug)]
pub struct GenOut {
    pub code: Code,
    pub cast: Option<Vec<u8>>,
}

impl View for GenOut {
    type V = GenOutView;

    open spec fn view(&self) -> GenOutView {
        GenOutView { code: self.code@, cast: opt_bytes_view(self.cast) }
    }
}

/// How one attribute value is rendered: a quoted string literal passes
/// through unchanged; every other value gets exactly one text conversion.
pub open spec fn sp_render_value(v: AttrValueView) -> AttrCodeView {
    match v {
        AttrValueView::LitTok { text, pos } => {
            if spec_is_quoted(text) {
                AttrCodeView::LitText { text }
            } else {
                AttrCodeView::ConvertToText { expr: text, pos }
            }
        },
        AttrValueView::Braced { expr, pos } => AttrCodeView::ConvertToText { expr, pos },
    }
}

/// Renders an element's attributes in source order, checking each name
/// against the tag; the first disallowed name aborts with the
/// invalid-attribute diagnostic.
pub open spec fn sp_render_attrs(
    attrs: Seq<AttrView>,
    info: TagInfoView,
    globals: Seq<Seq<u8>>,
) -> Result<Seq<AttrSetView>, ErrorView>
    decreases attrs.len(),
{
    if attrs.len() == 0 {
        Ok(Seq::empty())
    } else {
        let a = attrs[0];
        if !sp_attr_allowed(info, globals, a.name) {
            Err(ErrorView::InvalidAttr { attr: a.name, tag: info.name, pos: a.name_pos })
        } else {
            match sp_render_attrs(attrs.drop_first(), info, globals) {
                Err(e) => Err(e),
                Ok(rest) => Ok(
                    seq![AttrSetView { name: a.name, value: sp_render_value(a.value) }] + rest,
                ),
            }
        }
    }
}

/// A component's field initializers: one per attribute, in order, each
/// value verbatim.
pub open spec fn sp_fields(attrs: Seq<AttrView>) -> Seq<FieldInitView> {
    attrs.map_values(|a: AttrView| FieldInitView { name: a.name, value: a.value })
}

/// Lowers one markup node into construction code.
pub open spec fn sp_gen_item(n: NodeView, sch: SchemaView) -> Result<CodeView, ErrorView>
    decreases n,
{
    match n {
        NodeView::Element { name, name_pos, attrs, children } => {
            if spec_starts_lowercase(name) {
                match sp_find(sch.table, name) {
                    None => Err(ErrorView::UnknownTag { name, pos: name_pos }),
                    Some(info) => {
                        match sp_render_attrs(attrs, info, sch.globals) {
                            Err(e) => Err(e),
                            Ok(sets) => {
                                match sp_gen_list(children, sch) {
                                    Err(e) => Err(e),
                                    Ok(kids) => Ok(CodeView::NewElement { name, sets, kids }),
                                }
                            },
                        }
                    },
                }
            } else {
                match sp_gen_list(children, sch) {
                    Err(e) => Err(e),
                    Ok(kids) => Ok(
                        CodeView::NewComponent { name, fields: sp_fields(attrs), kids },
                    ),
                }
            }
        },
        NodeView::SelfClosing { name, name_pos, attrs } => {
            if spec_starts_lowercase(name) {
                match sp_find(sch.table, name) {
                    None => Err(ErrorView::UnknownTag { name, pos: name_pos }),
                    Some(info) => {
                        match sp_render_attrs(attrs, info, sch.globals) {
                            Err(e) => Err(e),
                            Ok(sets) => Ok(
                                CodeView::NewElement { name, sets, kids: Seq::empty() },
                            ),
                        }
                    },
                }
            } else {
                Ok(
                    CodeView::NewComponent {
                        name,
                        fields: sp_fields(attrs),
                        kids: Seq::empty(),
                    },
                )
            }
        },
        NodeView::Fragment { children } => {
            match sp_gen_list(children, sch) {
                Err(e) => Err(e),
                Ok(kids) => Ok(CodeView::NewFragment { kids }),
            }
        },
        NodeView::Embedded { expr, pos } => Ok(CodeView::EmbedValue { expr, pos }),
    }
}

/// Lowers a child list in source order; the first failing child aborts.
pub open spec fn sp_gen_list(s: Seq<NodeView>, sch: SchemaView) -> Result<Seq<CodeView>, ErrorView>
    decreases s,
{
    if s.len() == 0 {
        Ok(Seq::empty())
    } else {
        match sp_gen_item(s[0], sch) {
            Err(e) => Err(e),
            Ok(c) => {
                match sp_gen_list(s.drop_first(), sch) {
                    Err(e) => Err(e),
                    Ok(rest) => Ok(seq![c] + rest),
                }
            },
        }
    }
}

/// The narrowing cast of the root: the tag's node type for a schema-known
/// lowercase-leading element, and nothing for anything else. An unknown
/// lowercase-leading root name is the unknown-tag diagnostic.
pub open spec fn sp_root_cast(root: NodeView, sch: SchemaView) -> Result<
    Option<Seq<u8>>,
    ErrorView,
> {
    match root {
        NodeView::Element { name, name_pos, .. } => sp_name_cast(name, name_pos, sch),
        NodeView::SelfClosing { name, name_pos, .. } => sp_name_cast(name, name_pos, sch),
        _ => Ok(None),
    }
}

/// The cast for a root tag name.
pub open spec fn sp_name_cast(name: Seq<u8>, name_pos: int, sch: SchemaView) -> Result<
    Option<Seq<u8>>,
    ErrorView,
> {
    if spec_starts_lowercase(name) {
        match sp_find(sch.table, name) {
            None => Err(ErrorView::UnknownTag { name, pos: name_pos }),
            Some(info) => Ok(Some(info.ty)),
        }
    } else {
        Ok(None)
    }
}

/// Lowers a whole markup tree: the root's cast, then its code.
pub open spec fn sp_gen(root: NodeView, sch: SchemaView) -> Result<GenOutView, ErrorView> {
    match sp_root_cast(root, sch) {
        Err(e) => Err(e),
        Ok(cast) => {
            match sp_gen_item(root, sch) {
                Err(e) => Err(e),
                Ok(code) => Ok(GenOutView { code, cast }),
            }
        },
    }
}

/// A copy of an attribute value.
fn clone_attr_value(v: &AttrValue) -> (r: AttrValue)
    ensures
        r@ == v@,
{
    match v {
        AttrValue::LitTok { text, pos } => AttrValue::LitTok { text: text.clone(), pos: *pos },
        AttrValue::Braced { expr, pos } => AttrValue::Braced { expr: expr.clone(), pos: *pos },
    }
}

/// Renders one attribute value.
pub fn render_value(v: &AttrValue) -> (r: AttrCode)
    ensures
        r@ == sp_render_value(v@),
{
    match v {
        AttrValue::LitTok { text, pos } => {
            if is_quoted(text) {
                AttrCode::LitText { text: text.clone() }
            } else {
                AttrCode::ConvertToText { expr: text.clone(), pos: *pos }
            }
        },
        AttrValue::Braced { expr, pos } => AttrCode::ConvertToText {
            expr: expr.clone(),
            pos: *pos,
        },
    }
}

/// Renders the attributes of a schema-known element from index `i` on.
fn gen_attrs(attrs: &Vec<Attr>, i: usize, info: &TagInfo, sch: &Schema) -> (r: Result<
    Vec<AttrSet>,
    Error,
>)
    requires
        i <= attrs@.len(),
    ensures
        match r {
            Ok(sets) => sp_render_attrs(attrs_view(attrs@).skip(i as int), info@, sch@.globals)
                == Ok::<_, ErrorView>(sets_view(sets@)),
            Err(e) => sp_render_attrs(attrs_view(attrs@).skip(i as int), info@, sch@.globals)
                == Err::<Seq<AttrSetView>, _>(e@),
        },
    decreases attrs@.len() - i,
{
    let ghost av = attrs_view(attrs@);
    if i == attrs.len() {
        let empty: Vec<AttrSet> = Vec::new();
        proof {
            assert(av.skip(i as int) =~= Seq::empty());
            assert(sets_view(empty@) =~= Seq::empty());
        }
        return Ok(empty);
    }
    let a = &attrs[i];
    proof {
        assert(av.skip(i as int)[0] == av[i as int]);
        assert(av[i as int] == attrs@[i as int]@);
    }
    match sch.check_attribute(info, &a.name, a.name_pos) {
        Err(e) => Err(e),
        Ok(_) => {
            let set = AttrSet { name: a.name.clone(), value: render_value(&a.value) };
            let ghost sv = set@;
            proof {
                assert(av.skip(i as int).drop_first() =~= av.skip(i + 1));
            }
            match gen_attrs(attrs, i + 1, info, sch) {
                Err(e) => Err(e),
                Ok(rest) => {
                    let ghost rv = sets_view(rest@);
                    let mut out = rest;
                    out.insert(0, set);
                    proof {
                        assert(out@ == rest@.insert(0, set));
                        assert(sets_view(out@) =~= seq![sv] + rv);
                    }
                    Ok(out)
                },
            }
        },
    }
}

/// The field initializers of a component reference: its attributes, each
/// value verbatim.
fn field_inits(attrs: &Vec<Attr>) -> (r: Vec<FieldInit>)
    ensures
        fields_view(r@) == sp_fields(attrs_view(attrs@)),
{
    let ghost av = attrs_view(attrs@);
    let mut out: Vec<FieldInit> = Vec::new();
    let mut i: usize = 0;
    while i < attrs.len()
        invariant
            av == attrs_view(attrs@),
            i <= attrs@.len(),
            out@.len() == i,
            forall|m: int| 0 <= m < i ==> (#[trigger] out@[m])@ == (sp_fields(av)[m]),
        decreases attrs@.len() - i,
    {
        let a = &attrs[i];
        proof {
            assert(av[i as int] == attrs@[i as int]@);
        }
        out.push(FieldInit { name: a.name.clone(), value: clone_attr_value(&a.value) });
        i = i + 1;
    }
    proof {
        assert(fields_view(out@) =~= sp_fields(av));
    }
    out
}

/// Lowers one markup node into construction code.
pub fn gen_item(n: &MarkupNode, sch: &Schema) -> (r: Result<Code, Error>)
    requires
        sch.wf(),
    ensures
        match r {
            Ok(c) => sp_gen_item(n@, sch@) == Ok::<_, ErrorView>(c@),
            Err(e) => sp_gen_item(n@, sch@) == Err::<CodeView, _>(e@),
        },
    decreases *n, 0int,
{
    match n {
        MarkupNode::Element { name, name_pos, attrs, children } => {
            if starts_lowercase(name) {
                match sch.from_name(name, *name_pos) {
                    Err(e) => Err(e),
                    Ok(info) => {
                        match gen_attrs(attrs, 0, info, sch) {
                            Err(e) => {
                                proof {
                                    assert(attrs_view(attrs@).skip(0) =~= attrs_view(attrs@));
                                }
                                Err(e)
                            },
                            Ok(sets) => {
                                proof {
                                    assert(attrs_view(attrs@).skip(0) =~= attrs_view(attrs@));
                                    assert(decreases_to!(children => children@));
                                    assert(children@.skip(0) =~= children@);
                                    assert(crate::ast::nodes_view(children@).skip(0)
                                        =~= crate::ast::nodes_view(children@));
                                }
                                match gen_list(children, 0, sch) {
                                    Err(e) => Err(e),
                                    Ok(kids) => Ok(
                                        Code::NewElement { name: name.clone(), sets, kids },
                                    ),
                                }
                            },
                        }
                    },
                }
            } else {
                let fields = field_inits(attrs);
                proof {
                    assert(decreases_to!(children => children@));
                    assert(children@.skip(0) =~= children@);
                    assert(crate::ast::nodes_view(children@).skip(0) =~= crate::ast::nodes_view(
                        children@,
                    ));
                }
                match gen_list(children, 0, sch) {
                    Err(e) => Err(e),
                    Ok(kids) => Ok(Code::NewComponent { name: name.clone(), fields, kids }),
                }
            }
        },
        MarkupNode::SelfClosing { name, name_pos, attrs } => {
            if starts_lowercase(name) {
                match sch.from_name(name, *name_pos) {
                    Err(e) => Err(e),
                    Ok(info) => {
                        match gen_attrs(attrs, 0, info, sch) {
                            Err(e) => {
                                proof {
                                    assert(attrs_view(attrs@).skip(0) =~= attrs_view(attrs@));
                                }
                                Err(e)
                            },
                            Ok(sets) => {
                                proof {
                                    assert(attrs_view(attrs@).skip(0) =~= attrs_view(attrs@));
                                }
                                let kids: Vec<Code> = Vec::new();
                                proof {
                                    assert(codes_view(kids@) =~= Seq::empty());
                                }
                                Ok(Code::NewElement { name: name.clone(), sets, kids })
                            },
                        }
                    },
                }
            } else {
                let fields = field_inits(attrs);
                let kids: Vec<Code> = Vec::new();
                proof {
                    assert(codes_view(kids@) =~= Seq::empty());
                }
                Ok(Code::NewComponent { name: name.clone(), fields, kids })
            }
        },
        MarkupNode::Fragment { children } => {
            proof {
                assert(decreases_to!(children => children@));
                assert(children@.skip(0) =~= children@);
                assert(crate::ast::nodes_view(children@).skip(0) =~= crate::ast::nodes_view(
                    children@,
                ));
            }
            match gen_list(children, 0, sch) {
                Err(e) => Err(e),
                Ok(kids) => Ok(Code::NewFragment { kids }),
            }
        },
        MarkupNode::Embedded { expr, pos } => Ok(Code::EmbedValue { expr: expr.clone(), pos: *pos }),
    }
}

/// Lowers the children from index `i` on, in source order.
fn gen_list(nodes: &Vec<MarkupNode>, i: usize, sch: &Schema) -> (r: Result<Vec<Code>, Error>)
    requires
        sch.wf(),
        i <= nodes@.len(),
    ensures
        match r {
            Ok(kids) => sp_gen_list(crate::ast::nodes_view(nodes@).skip(i as int), sch@) == Ok::<
                _,
                ErrorView,
            >(codes_view(kids@)),
            Err(e) => sp_gen_list(crate::ast::nodes_view(nodes@).skip(i as int), sch@) == Err::<
                Seq<CodeView>,
                _,
            >(e@),
        },
    decreases nodes@.skip(i as int), 1int,
{
    let ghost nv = crate::ast::nodes_view(nodes@);
    proof {
        crate::ast::lemma_nodes_view(nodes@);
    }
    if i == nodes.len() {
        let empty: Vec<Code> = Vec::new();
        proof {
            assert(nv.skip(i as int) =~= Seq::empty());
            assert(codes_view(empty@) =~= Seq::empty());
        }
        return Ok(empty);
    }
    proof {
        assert(nv.skip(i as int)[0] == nv[i as int]);
        assert(nv[i as int] == nodes@[i as int]@);
        assert(nodes@.skip(i as int)[0] == nodes@[i as int]);
        assert(decreases_to!(nodes@.skip(i as int) => nodes@.skip(i as int)[0]));
    }
    match gen_item(&nodes[i], sch) {
        Err(e) => Err(e),
        Ok(c) => {
            let ghost cv = c@;
            proof {
                assert(nv.skip(i as int).drop_first() =~= nv.skip(i + 1));
                assert(nodes@.skip(i as int).subrange(1, nodes@.skip(i as int).len() as int)
                    =~= nodes@.skip(i + 1));
            }
            match gen_list(nodes, i + 1, sch) {
                Err(e) => Err(e),
                Ok(rest) => {
                    let ghost rv = codes_view(rest@);
                    let mut out = rest;
                    out.insert(0, c);
                    proof {
                        assert(out@ == rest@.insert(0, c));
                        lemma_codes_view(out@);
                        lemma_codes_view(rest@);
                        assert(codes_view(out@) =~= seq![cv] + rv);
                    }
                    Ok(out)
                },
            }
        },
    }
}

/// Lowers a whole markup tree: determines the root's narrowing cast, then
/// generates the root's construction code.
pub fn gen(root: &MarkupNode, sch: &Schema) -> (r: Result<GenOut, Error>)
    requires
        sch.wf(),
    ensures
        match r {
            Ok(g) => sp_gen(root@, sch@) == Ok::<_, ErrorView>(g@),
            Err(e) => sp_gen(root@, sch@) == Err::<GenOutView, _>(e@),
        },
{
    let cast: Option<Vec<u8>> = match root {
        MarkupNode::Element { name, name_pos, .. } => {
            if starts_lowercase(name) {
                match sch.from_name(name, *name_pos) {
                    Err(e) => {
                        return Err(e);
                    },
                    Ok(info) => Some(info.ty.clone()),
                }
            } else {
                None
            }
        },
        MarkupNode::SelfClosing { name, name_pos, .. } => {
            if starts_lowercase(name) {
                match sch.from_name(name, *name_pos) {
                    Err(e) => {
                        return Err(e);
                    },
                    Ok(info) => Some(info.ty.clone()),
                }
            } else {
                None
            }
        },
        _ => None,
    };
    match gen_item(root, sch) {
        Err(e) => Err(e),
        Ok(code) => Ok(GenOut { code, cast }),
    }
}

} // verus!
