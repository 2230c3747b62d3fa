//! The markup tree that the parser produces and the code generator consumes.
//!
//! Every element or self-closing element carries its tag name and the
//! position of that name; attributes keep their source order, and so do
//! children. An embedded host expression is held as its canonical text.

use vstd::prelude::*;

verus! {

broadcast use {
    vstd::std_specs::vec::axiom_vec_index_decreases,
    vstd::std_specs::vec::axiom_vec_decreases_to_view,
    vstd::seq::axiom_seq_index_decreases,
};

/// The mathematical model of an attribute value.
pub enum AttrValueView {
    /// A literal token used verbatim (a string literal keeps its quotes).
    LitTok { text: Seq<u8>, pos: int },
    /// A brace-delimited host expression, as its canonical text.
    Braced { expr: Seq<u8>, pos: int },
}

/// The value of an attribute: either a literal token or a braced host
/// expression.
#[derive(Debug)]
pub enum AttrValue {
    LitTok { text: Vec<u8>, pos: usize },
    Braced { expr: Vec<u8>, pos: usize },
}

impl View for AttrValue {
    type V = AttrValueView;

    open spec fn view(&self) -> AttrValueView {
        match self {
            AttrValue::LitTok { text, pos } => AttrValueView::LitTok {
                text: text@,
                pos: *pos as int,
            },
            AttrValue::Braced { expr, pos } => AttrValueView::Braced {
                expr: expr@,
                pos: *pos as int,
            },
        }
    }
}

/// The mathematical model of an attribute.
pub struct AttrView {
    pub name: Seq<u8>,
    pub name_pos: int,
    pub value: AttrValueView,
}

/// One `name=value` attribute, with the position of its name.
#[derive(Debug)]
pub struct Attr {
    pub name: Vec<u8>,
    pub name_pos: usize,
    pub value: AttrValue,
}

impl View for Attr {
    type V = AttrView;

    open spec fn view(&self) -> AttrView {
        AttrView { name: self.name@, name_pos: self.name_pos as int, value: self.value@ }
    }
}

/// The views of a sequence of attributes.
pub open spec fn attrs_view(s: Seq<Attr>) -> Seq<AttrView> {
    s.map_values(|a: Attr| a@)
}

/// The mathematical model of a markup node.
pub enum NodeView {
    Element { name: Seq<u8>, name_pos: int, attrs: Seq<AttrView>, children: Seq<NodeView> },
    SelfClosing { name: Seq<u8>, name_pos: int, attrs: Seq<AttrView> },
    Fragment { children: Seq<NodeView> },
    Embedded { expr: Seq<u8>, pos: int },
}

/// One node of the markup tree: an element with children, a self-closing
/// element, a fragment, or an embedded host expression.
#[derive(Debug)]
pub enum MarkupNode {
    Element { name: Vec<u8>, name_pos: usize, attrs: Vec<Attr>, children: Vec<MarkupNode> },
    SelfClosing { name: Vec<u8>, name_pos: usize, attrs: Vec<Attr> },
    Fragment { children: Vec<MarkupNode> },
    Embedded { expr: Vec<u8>, pos: usize },
}

/// The views of a sequence of markup nodes.
pub open spec fn nodes_view(s: Seq<MarkupNode>) -> Seq<NodeView>
    decreases s,
{
    if s.len() == 0 {
        Seq::empty()
    } else {
        nodes_view(s.drop_last()).push(s.last().view())
    }
}

impl View for MarkupNode {
    type V = NodeView;

    open spec fn view(&self) -> NodeView
        decreases self,
    {
        match self {
            MarkupNode::Element { name, name_pos, attrs, children } => NodeView::Element {
                name: name@,
                name_pos: *name_pos as int,
                attrs: attrs_view(attrs@),
                children: nodes_view(children@),
            },
            MarkupNode::SelfClosing { name, name_pos, attrs } => NodeView::SelfClosing {
                name: name@,
                name_pos: *name_pos as int,
                attrs: attrs_view(attrs@),
            },
            MarkupNode::Fragment { children } => NodeView::Fragment {
                children: nodes_view(children@),
            },
            MarkupNode::Embedded { expr, pos } => NodeView::Embedded {
                expr: expr@,
                pos: *pos as int,
            },
        }
    }
}

/// `nodes_view` maps the view over the sequence, element by element.
pub proof fn lemma_nodes_view(s: Seq<MarkupNode>)
    ensures
        nodes_view(s).len() == s.len(),
        forall|i: int|
            #![trigger nodes_view(s)[i]]
            #![trigger s[i]@]
            0 <= i < s.len() ==> nodes_view(s)[i] == s[i]@,
    decreases s,
{
    if s.len() > 0 {
        assert(nodes_view(s) == nodes_view(s.drop_last()).push(s.last().view()));
        lemma_nodes_view(s.drop_last());
        assert forall|i: int| 0 <= i < s.len() implies nodes_view(s)[i] == #[trigger] s[i]@ by {
            if i < s.len() - 1 {
                assert(s.drop_last()[i] == s[i]);
                assert(nodes_view(s)[i] == nodes_view(s.drop_last())[i]);
            } else {
                assert(nodes_view(s)[i] == s.last()@);
            }
        }
    }
}

} // verus!
