//! The compiler's guarantees, stated once and proved against the
//! definitions the contracts use.

use vstd::prelude::*;

use crate::ast::{AttrValueView, AttrView, NodeView};
use crate::bytes::{spec_is_quoted, spec_starts_lowercase};
use crate::error::ErrorView;
use crate::gen::{AttrCodeView, AttrSetView, CodeView, GenOutView, sp_gen, sp_gen_item,
    sp_gen_list, sp_render_attrs, sp_render_value};
use crate::jsx::{JsxOutputView, sp_compile};
use crate::schema::{SchemaView, TagInfoView, sp_attr_allowed, sp_find};
use crate::tok::TokView;

verus! {

broadcast use {
    vstd::seq::axiom_seq_index_decreases,
    vstd::seq::axiom_seq_subrange_decreases,
};

/// When a child list lowers successfully, it lowers child by child: the
/// generated expressions align with the children one to one, in source
/// order.
pub proof fn lemma_gen_list_elementwise(s: Seq<NodeView>, sch: SchemaView, kids: Seq<CodeView>)
    requires
        sp_gen_list(s, sch) == Ok::<_, ErrorView>(kids),
    ensures
        kids.len() == s.len(),
        forall|i: int|
            0 <= i < s.len() ==> sp_gen_item(#[trigger] s[i], sch) == Ok::<_, ErrorView>(kids[i]),
    decreases s.len(),
{
    if s.len() > 0 {
        match sp_gen_item(s[0], sch) {
            Ok(c) => {
                match sp_gen_list(s.drop_first(), sch) {
                    Ok(rest) => {
                        lemma_gen_list_elementwise(s.drop_first(), sch, rest);
                        assert(kids == seq![c] + rest);
                        assert forall|i: int| 0 <= i < s.len() implies sp_gen_item(
                            #[trigger] s[i],
                            sch,
                        ) == Ok::<_, ErrorView>(kids[i]) by {
                            if i > 0 {
                                assert(s.drop_first()[i - 1] == s[i]);
                                assert(kids[i] == rest[i - 1]);
                            }
                        }
                    },
                    Err(_) => {
                        assert(false);
                    },
                }
            },
            Err(_) => {
                assert(false);
            },
        }
    }
}

/// When an element's attributes render successfully, they render one to
/// one: the attribute-set operations carry the source names in source
/// order, each value rendered by the literal-passthrough rule, and every
/// name was accepted on the tag.
pub proof fn lemma_render_attrs_elementwise(
    attrs: Seq<AttrView>,
    info: TagInfoView,
    globals: Seq<Seq<u8>>,
    sets: Seq<AttrSetView>,
)
    requires
        sp_render_attrs(attrs, info, globals) == Ok::<_, ErrorView>(sets),
    ensures
        sets.len() == attrs.len(),
        forall|i: int|
            0 <= i < attrs.len() ==> (#[trigger] sets[i]).name == attrs[i].name && sets[i].value
                == sp_render_value(attrs[i].value),
        forall|i: int| 0 <= i < attrs.len() ==> sp_attr_allowed(info, globals, (#[trigger] attrs[i]).name),
    decreases attrs.len(),
{
    if attrs.len() > 0 {
        match sp_render_attrs(attrs.drop_first(), info, globals) {
            Ok(rest) => {
                lemma_render_attrs_elementwise(attrs.drop_first(), info, globals, rest);
                assert forall|i: int| 0 <= i < attrs.len() implies (#[trigger] sets[i]).name
                    == attrs[i].name && sets[i].value == sp_render_value(attrs[i].value) by {
                    if i > 0 {
                        assert(attrs.drop_first()[i - 1] == attrs[i]);
                        assert(sets[i] == rest[i - 1]);
                    }
                }
                assert forall|i: int| 0 <= i < attrs.len() implies sp_attr_allowed(
                    info,
                    globals,
                    (#[trigger] attrs[i]).name,
                ) by {
                    if i > 0 {
                        assert(attrs.drop_first()[i - 1] == attrs[i]);
                    }
                }
            },
            Err(_) => {
                assert(false);
            },
        }
    }
}

/// Construction order is source order. For a schema-known element that
/// lowers successfully, the generated code creates the element by its
/// name and then carries exactly one attribute-set operation per source
/// attribute, in source order, followed by exactly one appended child
/// expression per source child, in source order — never reordered, never
/// dropped, never duplicated.
pub proof fn lemma_element_source_order(
    name: Seq<u8>,
    name_pos: int,
    attrs: Seq<AttrView>,
    children: Seq<NodeView>,
    sch: SchemaView,
    c: CodeView,
)
    requires
        spec_starts_lowercase(name),
        sp_gen_item(NodeView::Element { name, name_pos, attrs, children }, sch) == Ok::<
            _,
            ErrorView,
        >(c),
    ensures
        ({
            &&& c matches CodeView::NewElement { name: cname, sets, kids }
            &&& cname == name
            &&& sets.len() == attrs.len()
            &&& forall|i: int|
                0 <= i < attrs.len() ==> (#[trigger] sets[i]).name == attrs[i].name && sets[i].value
                    == sp_render_value(attrs[i].value)
            &&& kids.len() == children.len()
            &&& forall|i: int|
                0 <= i < children.len() ==> sp_gen_item(#[trigger] children[i], sch) == Ok::<
                    _,
                    ErrorView,
                >(kids[i])
        }),
{
    let n = NodeView::Element { name, name_pos, attrs, children };
    match sp_find(sch.table, name) {
        Some(info) => {
            match sp_render_attrs(attrs, info, sch.globals) {
                Ok(sets) => {
                    lemma_render_attrs_elementwise(attrs, info, sch.globals, sets);
                    match sp_gen_list(children, sch) {
                        Ok(kids) => {
                            lemma_gen_list_elementwise(children, sch, kids);
                        },
                        Err(_) => {
                            assert(false);
                        },
                    }
                },
                Err(_) => {
                    assert(false);
                },
            }
        },
        None => {
            assert(false);
        },
    }
}

/// Literal passthrough. An attribute value renders with no
/// text-conversion exactly when it is a quoted string literal, which
/// then passes through verbatim; every other value — a braced host
/// expression or a non-string literal — renders through exactly one
/// text conversion of itself.
pub proof fn lemma_attr_literal_passthrough(v: AttrValueView)
    ensures
        (sp_render_value(v) is LitText) <==> (v matches AttrValueView::LitTok { text, .. }
            && spec_is_quoted(text)),
        v matches AttrValueView::LitTok { text, pos } ==> sp_render_value(v) == (if spec_is_quoted(
            text,
        ) {
            AttrCodeView::LitText { text }
        } else {
            AttrCodeView::ConvertToText { expr: text, pos }
        }),
        v matches AttrValueView::Braced { expr, pos } ==> sp_render_value(v) == (
        AttrCodeView::ConvertToText { expr, pos }),
{
}

/// The root's tag name, where it has one.
pub open spec fn sp_root_name(root: NodeView) -> Option<Seq<u8>> {
    match root {
        NodeView::Element { name, .. } => Some(name),
        NodeView::SelfClosing { name, .. } => Some(name),
        _ => None,
    }
}

/// The narrowing cast is emitted if and only if the root is a
/// schema-known element: a successful expansion carries a cast exactly
/// when the root is an element whose name is lowercase-leading, and the
/// cast is then that tag's node type; a fragment root, an embedded
/// expression root and a component-reference root never get one.
pub proof fn lemma_root_cast(root: NodeView, sch: SchemaView, g: GenOutView)
    requires
        sp_gen(root, sch) == Ok::<_, ErrorView>(g),
    ensures
        (g.cast is Some) <==> (sp_root_name(root) matches Some(name)
            && spec_starts_lowercase(name)),
        sp_root_name(root) matches Some(name) ==> (spec_starts_lowercase(name) ==> (sp_find(
            sch.table,
            name,
        ) matches Some(info) && g.cast == Some(info.ty))),
        root is Fragment ==> g.cast is None,
        root is Embedded ==> g.cast is None,
        sp_root_name(root) matches Some(name) ==> (!spec_starts_lowercase(name) ==> g.cast
            is None),
{
}

/// An unknown tag fails. A lowercase-leading element whose name is not
/// in the schema table lowers to the unknown-tag diagnostic naming that
/// tag and its position — at the root and anywhere below.
pub proof fn lemma_unknown_tag(
    name: Seq<u8>,
    name_pos: int,
    attrs: Seq<AttrView>,
    children: Seq<NodeView>,
    sch: SchemaView,
)
    requires
        spec_starts_lowercase(name),
        sp_find(sch.table, name) is None,
    ensures
        sp_gen_item(NodeView::Element { name, name_pos, attrs, children }, sch) == Err::<
            CodeView,
            _,
        >(ErrorView::UnknownTag { name, pos: name_pos }),
        sp_gen_item(NodeView::SelfClosing { name, name_pos, attrs }, sch) == Err::<CodeView, _>(
            ErrorView::UnknownTag { name, pos: name_pos },
        ),
        sp_gen(NodeView::Element { name, name_pos, attrs, children }, sch) == Err::<GenOutView, _>(
            ErrorView::UnknownTag { name, pos: name_pos },
        ),
{
}

/// A component reference is never an unknown tag. An element whose name
/// does not start with a lowercase letter is not resolved against the
/// schema at all: whenever its children lower, it lowers, to a component
/// construction — whether or not any component of that name exists,
/// which is a later stage's concern.
pub proof fn lemma_component_never_unknown(
    name: Seq<u8>,
    name_pos: int,
    attrs: Seq<AttrView>,
    children: Seq<NodeView>,
    sch: SchemaView,
    kids: Seq<CodeView>,
)
    requires
        !spec_starts_lowercase(name),
        sp_gen_list(children, sch) == Ok::<_, ErrorView>(kids),
    ensures
        sp_gen_item(NodeView::Element { name, name_pos, attrs, children }, sch) == Ok::<
            _,
            ErrorView,
        >(
            CodeView::NewComponent {
                name,
                fields: crate::gen::sp_fields(attrs),
                kids,
            },
        ),
        sp_gen_item(NodeView::SelfClosing { name, name_pos, attrs }, sch) == Ok::<_, ErrorView>(
            CodeView::NewComponent {
                name,
                fields: crate::gen::sp_fields(attrs),
                kids: Seq::empty(),
            },
        ),
{
}

/// The compiler is a pure function of its input: two runs over the same
/// token sequence and the same schema table produce the same output,
/// identical in structure, whether success or diagnostic.
pub proof fn lemma_compile_deterministic(
    toks: Seq<TokView>,
    sch: SchemaView,
    r1: Result<JsxOutputView, ErrorView>,
    r2: Result<JsxOutputView, ErrorView>,
)
    requires
        r1 == sp_compile(toks, sch),
        r2 == sp_compile(toks, sch),
    ensures
        r1 == r2,
{
}

} // verus!
