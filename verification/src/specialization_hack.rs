//! Value dispatch: turning an embedded value into DOM content by the most
//! specific capability its type satisfies.
//!
//! An embedded expression's value may already be a node, may be
//! string-like, may merely support a to-text rendering, or may be an
//! iterable of one of those. The choice between these readings is made at
//! compile time, once per embedding site, by a strict priority order over
//! the capabilities, highest first:
//!
//! 1. node-like: used directly as the child;
//! 2. string-like: wrapped in a single text node;
//! 3. text-convertible: rendered to text, wrapped in a single text node;
//! 4. iterable of node-like: a container node with one child per item;
//! 5. iterable of string-like: a container with one text node per item;
//! 6. iterable of text-convertible: as 5, each item rendered first.
//!
//! Nested iterables are not supported: a value that satisfies none of the
//! six capabilities has no rule, and the embedding site fails to compile.
//!
//! `select_rule` is the selection itself; the tag types below carry the
//! conversion each rule performs, on this crate's model of DOM nodes. In
//! generated host code the same selection is spelled as one method call
//! per embedding site, picked by overload resolution over the `...Kind`
//! traits; the `Wrap` reference wrapper exists to give those impls a
//! place to live.

use vstd::prelude::*;

use crate::dom::{DomNode, DomView, doms_view, lemma_doms_view, sp_texts};

verus! {

/// What capabilities an embedded value's type satisfies.
#[derive(Clone, Copy, Debug, PartialEq, Eq, Structural)]
pub struct Caps {
    pub node_like: bool,
    pub string_like: bool,
    pub text_convertible: bool,
    pub iter_node_like: bool,
    pub iter_string_like: bool,
    pub iter_text_convertible: bool,
}

/// The six conversion rules, one per capability, in priority order.
#[derive(Clone, Copy, Debug, PartialEq, Eq, Structural)]
pub enum DispatchRule {
    Node,
    Str,
    Display,
    IterNode,
    IterStr,
    IterDisplay,
}

/// The rule for a capability set: the most specific satisfied capability,
/// checked from most to least specific; none when no capability holds.
pub open spec fn sp_select_rule(c: Caps) -> Option<DispatchRule> {
    if c.node_like {
        Some(DispatchRule::Node)
    } else if c.string_like {
        Some(DispatchRule::Str)
    } else if c.text_convertible {
        Some(DispatchRule::Display)
    } else if c.iter_node_like {
        Some(DispatchRule::IterNode)
    } else if c.iter_string_like {
        Some(DispatchRule::IterStr)
    } else if c.iter_text_convertible {
        Some(DispatchRule::IterDisplay)
    } else {
        None
    }
}

/// Selects the conversion rule for a capability set.
pub fn select_rule(c: &Caps) -> (r: Option<DispatchRule>)
    ensures
        r == sp_select_rule(*c),
{
    if c.node_like {
        Some(DispatchRule::Node)
    } else if c.string_like {
        Some(DispatchRule::Str)
    } else if c.text_convertible {
        Some(DispatchRule::Display)
    } else if c.iter_node_like {
        Some(DispatchRule::IterNode)
    } else if c.iter_string_like {
        Some(DispatchRule::IterStr)
    } else if c.iter_text_convertible {
        Some(DispatchRule::IterDisplay)
    } else {
        None
    }
}

/// Dispatch priority is total and deterministic: a node-like value always
/// resolves to the node rule, whatever else its type can do — in
/// particular, a value that is both node-like and string-like never
/// resolves to the string rule. A rule exists exactly when some
/// capability holds.
pub proof fn lemma_dispatch_priority(c: Caps)
    ensures
        c.node_like ==> sp_select_rule(c) == Some(DispatchRule::Node),
        c.node_like && c.string_like ==> sp_select_rule(c) != Some(DispatchRule::Str),
        (sp_select_rule(c) is None) <==> !(c.node_like || c.string_like || c.text_convertible
            || c.iter_node_like || c.iter_string_like || c.iter_text_convertible),
{
}

/// The reference wrapper that the generated code puts around an embedded
/// value, so that the capability traits below have a place to attach.
pub struct Wrap<'a, T>(pub &'a T);

/// Rule 1: the value already is a node.
pub struct NodeTag;

impl NodeTag {
    /// Uses the value directly as the child, with no conversion.
    pub fn into_node(self, t: DomNode) -> (r: DomNode)
        ensures
            r == t,
    {
        t
    }
}

/// Marks a wrapped value as node-like.
pub trait NodeKind {
    /// Picks rule 1.
    fn domsl_into_node(&self) -> NodeTag {
        NodeTag
    }
}

impl<'a> NodeKind for Wrap<'a, DomNode> {
}

/// Rule 2: the value is string-like.
pub struct AsStrTag;

impl AsStrTag {
    /// Wraps the string in a single text node.
    pub fn into_node(self, x: Vec<u8>) -> (r: DomNode)
        ensures
            r@ == (DomView::Text { text: x@ }),
    {
        DomNode::Text { text: x }
    }
}

/// Marks a wrapped value as string-like.
pub trait AsStrKind {
    /// Picks rule 2.
    fn domsl_into_node(&self) -> AsStrTag {
        AsStrTag
    }
}

impl<'a> AsStrKind for Wrap<'a, Vec<u8>> {
}

/// Rule 3: the value supports a to-text rendering. The rendering itself
/// is the host's; this conversion receives the rendered text.
pub struct DisplayTag;

impl DisplayTag {
    /// Wraps the rendered text in a single text node.
    pub fn into_node(self, x: Vec<u8>) -> (r: DomNode)
        ensures
            r@ == (DomView::Text { text: x@ }),
    {
        DomNode::Text { text: x }
    }
}

/// Marks a wrapped value as text-convertible.
pub trait DisplayKind {
    /// Picks rule 3.
    fn domsl_into_node(&self) -> DisplayTag {
        DisplayTag
    }
}

impl<'a> DisplayKind for Wrap<'a, Vec<u8>> {
}

/// Rule 4: the value is an iterable of node-like items.
pub struct IterNodeTag;

impl IterNodeTag {
    /// A container node with the items as its children, in order.
    pub fn into_node(self, items: Vec<DomNode>) -> (r: DomNode)
        ensures
            r@ == (DomView::Fragment { kids: doms_view(items@) }),
    {
        DomNode::Fragment { kids: items }
    }
}

/// Marks a wrapped value as an iterable of node-like items.
pub trait IterNodeKind {
    /// Picks rule 4.
    fn domsl_into_node(&self) -> IterNodeTag {
        IterNodeTag
    }
}

impl<'a> IterNodeKind for Wrap<'a, Vec<DomNode>> {
}

/// Rule 5: the value is an iterable of string-like items.
pub struct IterStrTag;

impl IterStrTag {
    /// A container node with one text node per item, in order.
    pub fn into_node(self, items: Vec<Vec<u8>>) -> (r: DomNode)
        ensures
            r@ == (DomView::Fragment { kids: sp_texts(crate::bytes::bseq_view(items@)) }),
    {
        texts_fragment(items)
    }
}

/// Marks a wrapped value as an iterable of string-like items.
pub trait IterStrKind {
    /// Picks rule 5.
    fn domsl_into_node(&self) -> IterStrTag {
        IterStrTag
    }
}

impl<'a> IterStrKind for Wrap<'a, Vec<Vec<u8>>> {
}

/// Rule 6: the value is an iterable of text-convertible items; each item
/// arrives as its rendered text.
pub struct IterDisplayTag;

impl IterDisplayTag {
    /// A container node with one text node per rendered item, in order.
    pub fn into_node(self, items: Vec<Vec<u8>>) -> (r: DomNode)
        ensures
            r@ == (DomView::Fragment { kids: sp_texts(crate::bytes::bseq_view(items@)) }),
    {
        texts_fragment(items)
    }
}

/// Marks a wrapped value as an iterable of text-convertible items.
pub trait IterDisplayKind {
    /// Picks rule 6.
    fn domsl_into_node(&self) -> IterDisplayTag {
        IterDisplayTag
    }
}

impl<'a> IterDisplayKind for Wrap<'a, Vec<Vec<u8>>> {
}

/// A container node holding one text node per byte string, in order.
fn texts_fragment(items: Vec<Vec<u8>>) -> (r: DomNode)
    ensures
        r@ == (DomView::Fragment { kids: sp_texts(crate::bytes::bseq_view(items@)) }),
{
    let ghost iv = crate::bytes::bseq_view(items@);
    let mut kids: Vec<DomNode> = Vec::new();
    let mut items = items;
    let ghost total = items@.len();
    let mut i: usize = 0;
    while i < items.len()
        invariant
            iv == crate::bytes::bseq_view(items@),
            i <= items@.len(),
            kids@.len() == i,
            forall|m: int| 0 <= m < i ==> (#[trigger] kids@[m])@ == sp_texts(iv)[m],
        decreases items@.len() - i,
    {
        let t = items[i].clone();
        proof {
            assert(iv[i as int] == items@[i as int]@);
        }
        kids.push(DomNode::Text { text: t });
        i = i + 1;
    }
    proof {
        lemma_doms_view(kids@);
        assert(doms_view(kids@) =~= sp_texts(iv));
    }
    DomNode::Fragment { kids }
}

} // verus!
