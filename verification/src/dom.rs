//! A model of the DOM tree that generated code builds.
//!
//! The runtime DOM is outside this crate; this model carries exactly what
//! the compiler's guarantees speak of: an element with a tag name, its
//! attributes in the order they were set, and its children in the order
//! they were appended; a text node; and a document-fragment container.
//! As in the DOM, appending a fragment to a parent splices the fragment's
//! children into the parent instead of nesting the container.

use vstd::prelude::*;

verus! {

broadcast use {
    vstd::std_specs::vec::axiom_vec_index_decreases,
    vstd::std_specs::vec::axiom_vec_decreases_to_view,
    vstd::seq::axiom_seq_index_decreases,
};

/// What a user-declared component provides once lowering has defined its
/// data object: a construction entry point that receives the already
/// lowered child nodes and returns the component's node. Generated code
/// calls this method at every component reference; implementations come
/// from component lowering, never from this crate.
pub trait Component {
    /// Builds the component's node from its data and the given children.
    fn render(self, children: Vec<DomNode>) -> DomNode;
}

/// The mathematical model of one attribute on a DOM element.
pub struct DomAttrView {
    pub name: Seq<u8>,
    pub value: Seq<u8>,
}

/// One attribute on a DOM element.
#[derive(Debug)]
pub struct DomAttr {
    pub name: Vec<u8>,
    pub value: Vec<u8>,
}

impl View for DomAttr {
    type V = DomAttrView;

    open spec fn view(&self) -> DomAttrView {
        DomAttrView { name: self.name@, value: self.value@ }
    }
}

/// The views of a sequence of DOM attributes.
pub open spec fn dom_attrs_view(s: Seq<DomAttr>) -> Seq<DomAttrView> {
    s.map_values(|a: DomAttr| a@)
}

/// The mathematical model of a DOM node.
pub enum DomView {
    Element { tag: Seq<u8>, attrs: Seq<DomAttrView>, kids: Seq<DomView> },
    Text { text: Seq<u8> },
    Fragment { kids: Seq<DomView> },
}

/// One node of the model DOM: an element, a text node, or a
/// document-fragment container.
#[derive(Debug)]
pub enum DomNode {
    Element { tag: Vec<u8>, attrs: Vec<DomAttr>, kids: Vec<DomNode> },
    Text { text: Vec<u8> },
    Fragment { kids: Vec<DomNode> },
}

/// The views of a sequence of DOM nodes.
pub open spec fn doms_view(s: Seq<DomNode>) -> Seq<DomView>
    decreases s,
{
    if s.len() == 0 {
        Seq::empty()
    } else {
        doms_view(s.drop_last()).push(s.last().view())
    }
}

impl View for DomNode {
    type V = DomView;

    open spec fn view(&self) -> DomView
        decreases self,
    {
        match self {
            DomNode::Element { tag, attrs, kids } => DomView::Element {
                tag: tag@,
                attrs: dom_attrs_view(attrs@),
                kids: doms_view(kids@),
            },
            DomNode::Text { text } => DomView::Text { text: text@ },
            DomNode::Fragment { kids } => DomView::Fragment { kids: doms_view(kids@) },
        }
    }
}

/// `doms_view` maps the view over the sequence, element by element.
pub proof fn lemma_doms_view(s: Seq<DomNode>)
    ensures
        doms_view(s).len() == s.len(),
        forall|i: int|
            #![trigger doms_view(s)[i]]
            #![trigger s[i]@]
            0 <= i < s.len() ==> doms_view(s)[i] == s[i]@,
    decreases s,
{
    if s.len() > 0 {
        assert(doms_view(s) == doms_view(s.drop_last()).push(s.last().view()));
        lemma_doms_view(s.drop_last());
        assert forall|i: int| 0 <= i < s.len() implies doms_view(s)[i] == #[trigger] s[i]@ by {
            if i < s.len() - 1 {
                assert(s.drop_last()[i] == s[i]);
                assert(doms_view(s)[i] == doms_view(s.drop_last())[i]);
            } else {
                assert(doms_view(s)[i] == s.last()@);
            }
        }
    }
}

/// One text node per byte string, in order.
pub open spec fn sp_texts(s: Seq<Seq<u8>>) -> Seq<DomView> {
    s.map_values(|t: Seq<u8>| DomView::Text { text: t })
}

/// What appending a child to a parent's child list yields: a fragment is
/// spliced, its children taking its place; any other node is appended
/// itself.
pub open spec fn sp_append(kids: Seq<DomView>, child: DomView) -> Seq<DomView> {
    match child {
        DomView::Fragment { kids: f } => kids + f,
        _ => kids.push(child),
    }
}

/// Appends a child node to a child list, splicing fragments as the DOM
/// does.
pub fn append_child(kids: &mut Vec<DomNode>, child: DomNode)
    ensures
        doms_view(final(kids)@) == sp_append(doms_view(old(kids)@), child@),
{
    let ghost kv = doms_view(kids@);
    let ghost cv = child@;
    match child {
        DomNode::Fragment { kids: f } => {
            let mut f = f;
            let ghost f0 = f@;
            let ghost fv = doms_view(f@);
            proof {
                lemma_doms_view(kids@);
                lemma_doms_view(f@);
            }
            let ghost before = kids@;
            kids.append(&mut f);
            proof {
                lemma_doms_view(kids@);
                assert forall|i: int| 0 <= i < kids@.len() implies doms_view(kids@)[i] == (kv
                    + fv)[i] by {
                    if i < before.len() {
                        assert(kids@[i] == before[i]);
                    } else {
                        assert(kids@[i] == f0[i - before.len()]);
                    }
                }
                assert(doms_view(kids@) =~= kv + fv);
            }
        },
        other => {
            let ghost before = kids@;
            kids.push(other);
            proof {
                lemma_doms_view(kids@);
                lemma_doms_view(before);
                assert forall|i: int| 0 <= i < kids@.len() implies doms_view(kids@)[i] == kv.push(
                    cv,
                )[i] by {
                    if i < before.len() {
                        assert(kids@[i] == before[i]);
                    }
                }
                assert(doms_view(kids@) =~= kv.push(cv));
            }
        },
    }
}

/// A copy of a byte-string list.
pub fn clone_bytes_list(items: &Vec<Vec<u8>>) -> (r: Vec<Vec<u8>>)
    ensures
        r@.len() == items@.len(),
        forall|i: int| 0 <= i < items@.len() ==> (#[trigger] r@[i])@ == items@[i]@,
{
    let mut out: Vec<Vec<u8>> = Vec::new();
    let mut i: usize = 0;
    while i < items.len()
        invariant
            i <= items@.len(),
            out@.len() == i,
            forall|m: int| 0 <= m < i ==> (#[trigger] out@[m])@ == items@[m]@,
        decreases items@.len() - i,
    {
        out.push(items[i].clone());
        i = i + 1;
    }
    out
}

/// A deep copy of a DOM node.
pub fn clone_dom(n: &DomNode) -> (r: DomNode)
    ensures
        r@ == n@,
    decreases *n,
{
    match n {
        DomNode::Text { text } => DomNode::Text { text: text.clone() },
        DomNode::Element { tag, attrs, kids } => {
            let mut out_attrs: Vec<DomAttr> = Vec::new();
            let mut i: usize = 0;
            while i < attrs.len()
                invariant
                    i <= attrs@.len(),
                    out_attrs@.len() == i,
                    forall|m: int| 0 <= m < i ==> (#[trigger] out_attrs@[m])@ == attrs@[m]@,
                decreases attrs@.len() - i,
            {
                let a = &attrs[i];
                out_attrs.push(DomAttr { name: a.name.clone(), value: a.value.clone() });
                i = i + 1;
            }
            proof {
                assert(dom_attrs_view(out_attrs@) =~= dom_attrs_view(attrs@));
                assert(decreases_to!(kids => kids@));
                assert(kids@.skip(0) =~= kids@);
            }
            let out_kids = clone_doms(kids, 0);
            proof {
                lemma_doms_view(out_kids@);
                lemma_doms_view(kids@);
                assert(doms_view(out_kids@) =~= doms_view(kids@));
            }
            DomNode::Element { tag: tag.clone(), attrs: out_attrs, kids: out_kids }
        },
        DomNode::Fragment { kids } => {
            proof {
                assert(decreases_to!(kids => kids@));
                assert(kids@.skip(0) =~= kids@);
            }
            let out_kids = clone_doms(kids, 0);
            proof {
                lemma_doms_view(out_kids@);
                lemma_doms_view(kids@);
                assert(doms_view(out_kids@) =~= doms_view(kids@));
            }
            DomNode::Fragment { kids: out_kids }
        },
    }
}

/// A deep copy of a DOM node list.
pub fn clone_dom_list(kids: &Vec<DomNode>) -> (r: Vec<DomNode>)
    ensures
        r@.len() == kids@.len(),
        forall|i: int| 0 <= i < kids@.len() ==> (#[trigger] r@[i])@ == kids@[i]@,
{
    proof {
        assert(kids@.skip(0) =~= kids@);
    }
    clone_doms(kids, 0)
}

/// A deep copy of a DOM node list from index `i` on.
fn clone_doms(kids: &Vec<DomNode>, i: usize) -> (r: Vec<DomNode>)
    requires
        i <= kids@.len(),
    ensures
        r@.len() == kids@.len() - i,
        forall|m: int| 0 <= m < r@.len() ==> (#[trigger] r@[m])@ == kids@[m + i]@,
    decreases kids@.skip(i as int), 1int,
{
    if i == kids.len() {
        Vec::new()
    } else {
        proof {
            assert(kids@.skip(i as int)[0] == kids@[i as int]);
            assert(decreases_to!(kids@.skip(i as int) => kids@.skip(i as int)[0]));
            assert(kids@.skip(i as int).subrange(1, kids@.skip(i as int).len() as int) =~= kids@
                .skip(i + 1));
        }
        let c = clone_dom(&kids[i]);
        let rest = clone_doms(kids, i + 1);
        let mut out = rest;
        out.insert(0, c);
        out
    }
}

} // verus!
