//! An evaluator for generated construction code, over the model DOM.
//!
//! Generated code runs in the host, against the real DOM; this evaluator
//! runs the same construction plan against this crate's model of it, so
//! that what a plan builds — which elements, which attribute values,
//! which children in which order — can be stated, proved and tested
//! without a browser.
//!
//! Embedded host expressions are the one thing the model cannot run. An
//! embedding site is evaluated from its expression text: a string
//! literal stands for itself, a numeric literal renders as its own
//! digits, and any other expression is looked up in an environment that
//! maps expression text to a value; the value is then converted by its
//! dispatch rule. Escape sequences inside string literals are kept as
//! written. A component construction calls user code, which the model
//! cannot run, so evaluating it yields nothing; everything else yields a
//! node whenever every embedded expression is covered.

use vstd::prelude::*;

use crate::bytes::{bseq_view, bytes_eq};
use crate::specialization_hack::{AsStrTag, Caps, DispatchRule, DisplayTag, IterDisplayTag, IterNodeTag,
    IterStrTag, NodeTag, sp_select_rule};
use crate::dom::{DomAttr, DomAttrView, DomNode, DomView, append_child, clone_bytes_list,
    clone_dom, clone_dom_list, dom_attrs_view, doms_view, lemma_doms_view, sp_append, sp_texts};
use crate::gen::{AttrCode, AttrCodeView, AttrSet, AttrSetView, Code, CodeView, codes_view,
    lemma_codes_view, sets_view};

verus! {

broadcast use {
    vstd::std_specs::vec::axiom_vec_index_decreases,
    vstd::std_specs::vec::axiom_vec_decreases_to_view,
    vstd::seq::axiom_seq_index_decreases,
    vstd::seq::axiom_seq_subrange_decreases,
};

/// The byte value of ASCII `0`.
pub const ASCII_ZERO: u8 = 48;

/// The byte value of ASCII `9`.
pub const ASCII_NINE: u8 = 57;

/// The mathematical model of an embedded value.
#[allow(inconsistent_fields)]
pub enum ValueView {
    Node { node: DomView },
    Str { text: Seq<u8> },
    Display { text: Seq<u8> },
    IterNode { items: Seq<DomView> },
    IterStr { items: Seq<Seq<u8>> },
    IterDisplay { items: Seq<Seq<u8>> },
}

/// An embedded value, as the capability its host type satisfies: a node,
/// a string, a text-convertible value (carried as its rendered text), or
/// an iterable of one of those.
#[derive(Debug)]
#[allow(inconsistent_fields)]
pub enum Value {
    Node { node: DomNode },
    Str { text: Vec<u8> },
    Display { text: Vec<u8> },
    IterNode { items: Vec<DomNode> },
    IterStr { items: Vec<Vec<u8>> },
    IterDisplay { items: Vec<Vec<u8>> },
}

impl View for Value {
    type V = ValueView;

    open spec fn view(&self) -> ValueView {
        match self {
            Value::Node { node } => ValueView::Node { node: node@ },
            Value::Str { text } => ValueView::Str { text: text@ },
            Value::Display { text } => ValueView::Display { text: text@ },
            Value::IterNode { items } => ValueView::IterNode { items: doms_view(items@) },
            Value::IterStr { items } => ValueView::IterStr { items: bseq_view(items@) },
            Value::IterDisplay { items } => ValueView::IterDisplay { items: bseq_view(items@) },
        }
    }
}

/// The capabilities that a value of each kind satisfies. A string is
/// itself text-convertible, and an iterable of strings is an iterable of
/// text-convertible items; the stricter reading wins by priority.
pub open spec fn sp_caps_of(v: ValueView) -> Caps {
    match v {
        ValueView::Node { .. } => Caps {
            node_like: true,
            string_like: false,
            text_convertible: false,
            iter_node_like: false,
            iter_string_like: false,
            iter_text_convertible: false,
        },
        ValueView::Str { .. } => Caps {
            node_like: false,
            string_like: true,
            text_convertible: true,
            iter_node_like: false,
            iter_string_like: false,
            iter_text_convertible: false,
        },
        ValueView::Display { .. } => Caps {
            node_like: false,
            string_like: false,
            text_convertible: true,
            iter_node_like: false,
            iter_string_like: false,
            iter_text_convertible: false,
        },
        ValueView::IterNode { .. } => Caps {
            node_like: false,
            string_like: false,
            text_convertible: false,
            iter_node_like: true,
            iter_string_like: false,
            iter_text_convertible: false,
        },
        ValueView::IterStr { .. } => Caps {
            node_like: false,
            string_like: false,
            text_convertible: false,
            iter_node_like: false,
            iter_string_like: true,
            iter_text_convertible: true,
        },
        ValueView::IterDisplay { .. } => Caps {
            node_like: false,
            string_like: false,
            text_convertible: false,
            iter_node_like: false,
            iter_string_like: false,
            iter_text_convertible: true,
        },
    }
}

/// The rule each kind of value converts by.
pub open spec fn sp_rule_of(v: ValueView) -> DispatchRule {
    match v {
        ValueView::Node { .. } => DispatchRule::Node,
        ValueView::Str { .. } => DispatchRule::Str,
        ValueView::Display { .. } => DispatchRule::Display,
        ValueView::IterNode { .. } => DispatchRule::IterNode,
        ValueView::IterStr { .. } => DispatchRule::IterStr,
        ValueView::IterDisplay { .. } => DispatchRule::IterDisplay,
    }
}

/// Every value converts by exactly the rule that priority selection
/// picks for its capabilities.
pub proof fn lemma_value_rule(v: ValueView)
    ensures
        sp_select_rule(sp_caps_of(v)) == Some(sp_rule_of(v)),
{
}

/// The node a value converts to, by its rule: a node passes through, a
/// string or rendered text becomes one text node, and an iterable
/// becomes a container of its converted items.
pub open spec fn sp_value_to_node(v: ValueView) -> DomView {
    match v {
        ValueView::Node { node } => node,
        ValueView::Str { text } => DomView::Text { text },
        ValueView::Display { text } => DomView::Text { text },
        ValueView::IterNode { items } => DomView::Fragment { kids: items },
        ValueView::IterStr { items } => DomView::Fragment { kids: sp_texts(items) },
        ValueView::IterDisplay { items } => DomView::Fragment { kids: sp_texts(items) },
    }
}

/// Converts a value to a node through the conversion of its rule's tag.
pub fn value_to_node(v: Value) -> (r: DomNode)
    ensures
        r@ == sp_value_to_node(v@),
{
    match v {
        Value::Node { node } => NodeTag.into_node(node),
        Value::Str { text } => AsStrTag.into_node(text),
        Value::Display { text } => DisplayTag.into_node(text),
        Value::IterNode { items } => IterNodeTag.into_node(items),
        Value::IterStr { items } => IterStrTag.into_node(items),
        Value::IterDisplay { items } => IterDisplayTag.into_node(items),
    }
}

/// A deep copy of a value.
pub fn clone_value(v: &Value) -> (r: Value)
    ensures
        r@ == v@,
{
    match v {
        Value::Node { node } => Value::Node { node: clone_dom(node) },
        Value::Str { text } => Value::Str { text: text.clone() },
        Value::Display { text } => Value::Display { text: text.clone() },
        Value::IterNode { items } => {
            let out = clone_dom_list(items);
            proof {
                lemma_doms_view(out@);
                lemma_doms_view(items@);
                assert(doms_view(out@) =~= doms_view(items@));
            }
            Value::IterNode { items: out }
        },
        Value::IterStr { items } => {
            let out = clone_bytes_list(items);
            proof {
                assert(bseq_view(out@) =~= bseq_view(items@));
            }
            Value::IterStr { items: out }
        },
        Value::IterDisplay { items } => {
            let out = clone_bytes_list(items);
            proof {
                assert(bseq_view(out@) =~= bseq_view(items@));
            }
            Value::IterDisplay { items: out }
        },
    }
}

/// The mathematical model of one environment binding.
pub struct BindingView {
    pub name: Seq<u8>,
    pub value: ValueView,
}

/// One binding of an evaluation environment: the canonical text of an
/// embedded expression, and the value it stands for.
#[derive(Debug)]
pub struct Binding {
    pub name: Vec<u8>,
    pub value: Value,
}

impl View for Binding {
    type V = BindingView;

    open spec fn view(&self) -> BindingView {
        BindingView { name: self.name@, value: self.value@ }
    }
}

/// The views of an environment.
pub open spec fn env_view(s: Seq<Binding>) -> Seq<BindingView> {
    s.map_values(|b: Binding| b@)
}

/// The value bound to a name: the first binding carrying it.
pub open spec fn sp_lookup(env: Seq<BindingView>, name: Seq<u8>) -> Option<ValueView>
    decreases env.len(),
{
    if env.len() == 0 {
        None
    } else if env[0].name == name {
        Some(env[0].value)
    } else {
        sp_lookup(env.drop_first(), name)
    }
}

proof fn lemma_lookup_at(env: Seq<BindingView>, name: Seq<u8>, i: int)
    requires
        0 <= i < env.len(),
        env[i].name == name,
        forall|m: int| 0 <= m < i ==> (#[trigger] env[m].name) != name,
    ensures
        sp_lookup(env, name) == Some(env[i].value),
    decreases env.len(),
{
    if i > 0 {
        let d = env.drop_first();
        assert forall|m: int| 0 <= m < i - 1 implies (#[trigger] d[m].name) != name by {
            assert(d[m] == env[m + 1]);
        }
        assert(d[i - 1] == env[i]);
        lemma_lookup_at(d, name, i - 1);
    }
}

proof fn lemma_lookup_absent(env: Seq<BindingView>, name: Seq<u8>)
    requires
        forall|m: int| 0 <= m < env.len() ==> (#[trigger] env[m].name) != name,
    ensures
        sp_lookup(env, name) is None,
    decreases env.len(),
{
    if env.len() > 0 {
        let d = env.drop_first();
        assert forall|m: int| 0 <= m < d.len() implies (#[trigger] d[m].name) != name by {
            assert(d[m] == env[m + 1]);
        }
        lemma_lookup_absent(d, name);
    }
}

/// Looks a name up in the environment; the found value is copied out.
pub fn lookup_value(env: &Vec<Binding>, name: &Vec<u8>) -> (r: Option<Value>)
    ensures
        match r {
            Some(v) => sp_lookup(env_view(env@), name@) == Some(v@),
            None => sp_lookup(env_view(env@), name@) is None,
        },
{
    let ghost ev = env_view(env@);
    let mut i: usize = 0;
    while i < env.len()
        invariant
            ev == env_view(env@),
            i <= env@.len(),
            forall|m: int| 0 <= m < i ==> (#[trigger] ev[m].name) != name@,
        decreases env@.len() - i,
    {
        proof {
            assert(ev[i as int] == env@[i as int]@);
        }
        if bytes_eq(&env[i].name, name) {
            let v = clone_value(&env[i].value);
            proof {
                lemma_lookup_at(ev, name@, i as int);
            }
            return Some(v);
        }
        i = i + 1;
    }
    proof {
        lemma_lookup_absent(ev, name@);
    }
    None
}

/// Whether an expression's text is a double-quoted string literal.
pub open spec fn sp_is_string_literal(s: Seq<u8>) -> bool {
    s.len() >= 2 && s[0] == crate::bytes::ASCII_QUOTE && s[s.len() - 1] == crate::bytes::ASCII_QUOTE
}

/// The content between a string literal's quotes, as written.
pub open spec fn sp_literal_content(s: Seq<u8>) -> Seq<u8> {
    s.subrange(1, s.len() - 1)
}

/// Whether an expression's text is a run of ASCII digits.
pub open spec fn sp_is_numeric(s: Seq<u8>) -> bool {
    s.len() > 0 && forall|i: int| 0 <= i < s.len() ==> ASCII_ZERO <= #[trigger] s[i] <= ASCII_NINE
}

/// The text an expression renders to at an attribute position: a string
/// literal gives its content, a numeric literal its own digits, and any
/// other expression the text of the string-like or text-convertible
/// value bound to it.
pub open spec fn sp_text_of_expr(expr: Seq<u8>, env: Seq<BindingView>) -> Option<Seq<u8>> {
    if sp_is_string_literal(expr) {
        Some(sp_literal_content(expr))
    } else if sp_is_numeric(expr) {
        Some(expr)
    } else {
        match sp_lookup(env, expr) {
            Some(ValueView::Str { text }) => Some(text),
            Some(ValueView::Display { text }) => Some(text),
            _ => None,
        }
    }
}

/// Whether the text is a double-quoted string literal.
pub fn is_string_literal(s: &Vec<u8>) -> (r: bool)
    ensures
        r == sp_is_string_literal(s@),
{
    s.len() >= 2 && s[0] == crate::bytes::ASCII_QUOTE && s[s.len() - 1]
        == crate::bytes::ASCII_QUOTE
}

/// The content between a string literal's quotes.
pub fn literal_content(s: &Vec<u8>) -> (r: Vec<u8>)
    requires
        sp_is_string_literal(s@),
    ensures
        r@ == sp_literal_content(s@),
{
    let mut out: Vec<u8> = Vec::new();
    let n = s.len();
    let mut i: usize = 1;
    while i + 1 < n
        invariant
            n == s@.len(),
            1 <= i <= s@.len() - 1,
            out@.len() == i - 1,
            forall|m: int| 0 <= m < i - 1 ==> out@[m] == s@[m + 1],
        decreases s@.len() - i,
    {
        out.push(s[i]);
        i = i + 1;
    }
    proof {
        assert(out@ =~= sp_literal_content(s@));
    }
    out
}

/// Whether the text is a run of ASCII digits.
pub fn is_numeric(s: &Vec<u8>) -> (r: bool)
    ensures
        r == sp_is_numeric(s@),
{
    if s.len() == 0 {
        return false;
    }
    let mut i: usize = 0;
    while i < s.len()
        invariant
            i <= s@.len(),
            forall|m: int| 0 <= m < i ==> ASCII_ZERO <= #[trigger] s@[m] <= ASCII_NINE,
        decreases s@.len() - i,
    {
        if s[i] < ASCII_ZERO || s[i] > ASCII_NINE {
            return false;
        }
        i = i + 1;
    }
    true
}

/// The text an expression renders to at an attribute position.
pub fn text_of_expr(expr: &Vec<u8>, env: &Vec<Binding>) -> (r: Option<Vec<u8>>)
    ensures
        match r {
            Some(t) => sp_text_of_expr(expr@, env_view(env@)) == Some(t@),
            None => sp_text_of_expr(expr@, env_view(env@)) is None,
        },
{
    if is_string_literal(expr) {
        Some(literal_content(expr))
    } else if is_numeric(expr) {
        Some(expr.clone())
    } else {
        match lookup_value(env, expr) {
            Some(Value::Str { text }) => Some(text),
            Some(Value::Display { text }) => Some(text),
            Some(_) => None,
            None => None,
        }
    }
}

/// The attribute an attribute-set operation produces: a literal value's
/// content verbatim, with no conversion; a converted value's rendered
/// text.
pub open spec fn sp_eval_attr(set: AttrSetView, env: Seq<BindingView>) -> Option<DomAttrView> {
    match set.value {
        AttrCodeView::LitText { text } => {
            if sp_is_string_literal(text) {
                Some(DomAttrView { name: set.name, value: sp_literal_content(text) })
            } else {
                Some(DomAttrView { name: set.name, value: text })
            }
        },
        AttrCodeView::ConvertToText { expr, .. } => {
            match sp_text_of_expr(expr, env) {
                Some(t) => Some(DomAttrView { name: set.name, value: t }),
                None => None,
            }
        },
    }
}

/// The attributes a run of attribute-set operations produces, in order.
pub open spec fn sp_eval_attrs(sets: Seq<AttrSetView>, env: Seq<BindingView>) -> Option<
    Seq<DomAttrView>,
>
    decreases sets.len(),
{
    if sets.len() == 0 {
        Some(Seq::empty())
    } else {
        match sp_eval_attr(sets[0], env) {
            None => None,
            Some(a) => {
                match sp_eval_attrs(sets.drop_first(), env) {
                    None => None,
                    Some(rest) => Some(seq![a] + rest),
                }
            },
        }
    }
}

/// The child list that appending each node in turn yields, fragments
/// spliced.
pub open spec fn sp_splice(items: Seq<DomView>) -> Seq<DomView>
    decreases items.len(),
{
    if items.len() == 0 {
        Seq::empty()
    } else {
        sp_append(sp_splice(items.drop_last()), items.last())
    }
}

/// The node a code expression evaluates to, if the environment covers
/// its embedded expressions; a component construction evaluates to
/// nothing, since it would run user code.
pub open spec fn sp_eval(c: CodeView, env: Seq<BindingView>) -> Option<DomView>
    decreases c,
{
    match c {
        CodeView::EmbedValue { expr, .. } => {
            if sp_is_string_literal(expr) {
                Some(DomView::Text { text: sp_literal_content(expr) })
            } else if sp_is_numeric(expr) {
                Some(DomView::Text { text: expr })
            } else {
                match sp_lookup(env, expr) {
                    None => None,
                    Some(v) => Some(sp_value_to_node(v)),
                }
            }
        },
        CodeView::NewElement { name, sets, kids } => {
            match sp_eval_attrs(sets, env) {
                None => None,
                Some(attrs) => {
                    match sp_eval_list(kids, env) {
                        None => None,
                        Some(items) => Some(
                            DomView::Element { tag: name, attrs, kids: sp_splice(items) },
                        ),
                    }
                },
            }
        },
        CodeView::NewFragment { kids } => {
            match sp_eval_list(kids, env) {
                None => None,
                Some(items) => Some(DomView::Fragment { kids: sp_splice(items) }),
            }
        },
        CodeView::NewComponent { .. } => None,
    }
}

/// The nodes a run of child expressions evaluates to, in order, before
/// splicing.
pub open spec fn sp_eval_list(s: Seq<CodeView>, env: Seq<BindingView>) -> Option<Seq<DomView>>
    decreases s,
{
    if s.len() == 0 {
        Some(Seq::empty())
    } else {
        match sp_eval(s[0], env) {
            None => None,
            Some(d) => {
                match sp_eval_list(s.drop_first(), env) {
                    None => None,
                    Some(rest) => Some(seq![d] + rest),
                }
            },
        }
    }
}

/// Evaluates one attribute-set operation.
fn eval_attr(set: &AttrSet, env: &Vec<Binding>) -> (r: Option<DomAttr>)
    ensures
        match r {
            Some(a) => sp_eval_attr(set@, env_view(env@)) == Some(a@),
            None => sp_eval_attr(set@, env_view(env@)) is None,
        },
{
    match &set.value {
        AttrCode::LitText { text } => {
            if is_string_literal(text) {
                Some(DomAttr { name: set.name.clone(), value: literal_content(text) })
            } else {
                Some(DomAttr { name: set.name.clone(), value: text.clone() })
            }
        },
        AttrCode::ConvertToText { expr, .. } => {
            match text_of_expr(expr, env) {
                Some(t) => Some(DomAttr { name: set.name.clone(), value: t }),
                None => None,
            }
        },
    }
}

/// Evaluates the attribute-set operations from index `i` on.
fn eval_attrs(sets: &Vec<AttrSet>, i: usize, env: &Vec<Binding>) -> (r: Option<Vec<DomAttr>>)
    requires
        i <= sets@.len(),
    ensures
        match r {
            Some(attrs) => sp_eval_attrs(sets_view(sets@).skip(i as int), env_view(env@)) == Some(
                dom_attrs_view(attrs@),
            ),
            None => sp_eval_attrs(sets_view(sets@).skip(i as int), env_view(env@)) is None,
        },
    decreases sets@.len() - i,
{
    let ghost sv = sets_view(sets@);
    if i == sets.len() {
        let empty: Vec<DomAttr> = Vec::new();
        proof {
            assert(sv.skip(i as int) =~= Seq::empty());
            assert(dom_attrs_view(empty@) =~= Seq::empty());
        }
        return Some(empty);
    }
    proof {
        assert(sv.skip(i as int)[0] == sv[i as int]);
        assert(sv[i as int] == sets@[i as int]@);
        assert(sv.skip(i as int).drop_first() =~= sv.skip(i + 1));
    }
    match eval_attr(&sets[i], env) {
        None => None,
        Some(a) => {
            let ghost av = a@;
            match eval_attrs(sets, i + 1, env) {
                None => None,
                Some(rest) => {
                    let ghost rv = dom_attrs_view(rest@);
                    let mut out = rest;
                    out.insert(0, a);
                    proof {
                        assert(out@ == rest@.insert(0, a));
                        assert(dom_attrs_view(out@) =~= seq![av] + rv);
                    }
                    Some(out)
                },
            }
        },
    }
}

/// Appends each node in turn, splicing fragments, as the construction
/// code's append statements do.
fn splice_all(items: Vec<DomNode>) -> (r: Vec<DomNode>)
    ensures
        doms_view(r@) == sp_splice(doms_view(items@)),
{
    let ghost iv = doms_view(items@);
    proof {
        lemma_doms_view(items@);
    }
    let mut out: Vec<DomNode> = Vec::new();
    let mut items = items;
    let ghost iv0 = items@;
    let mut i: usize = 0;
    proof {
        assert(doms_view(Seq::<DomNode>::empty()) =~= Seq::<DomView>::empty());
        assert(iv.take(0) =~= Seq::<DomView>::empty());
    }
    while i < items.len()
        invariant
            items@ == iv0,
            iv == doms_view(iv0),
            iv.len() == iv0.len(),
            forall|m: int|
                #![trigger iv[m]]
                0 <= m < iv0.len() ==> iv[m] == iv0[m]@,
            i <= iv0.len(),
            doms_view(out@) == sp_splice(iv.take(i as int)),
        decreases iv0.len() - i,
    {
        let ghost before = iv.take(i as int);
        let c = clone_dom(&items[i]);
        append_child(&mut out, c);
        proof {
            assert(iv.take(i + 1).drop_last() =~= iv.take(i as int));
            assert(iv.take(i + 1).last() == iv[i as int]);
            assert(sp_splice(iv.take(i + 1)) == sp_append(sp_splice(before), iv[i as int]));
        }
        i = i + 1;
    }
    proof {
        assert(iv.take(iv0.len() as int) =~= iv);
    }
    out
}

/// Evaluates one code expression against an environment.
pub fn eval_code(c: &Code, env: &Vec<Binding>) -> (r: Option<DomNode>)
    ensures
        match r {
            Some(d) => sp_eval(c@, env_view(env@)) == Some(d@),
            None => sp_eval(c@, env_view(env@)) is None,
        },
    decreases *c, 0int,
{
    match c {
        Code::EmbedValue { expr, .. } => {
            if is_string_literal(expr) {
                Some(DomNode::Text { text: literal_content(expr) })
            } else if is_numeric(expr) {
                Some(DomNode::Text { text: expr.clone() })
            } else {
                match lookup_value(env, expr) {
                    None => None,
                    Some(v) => Some(value_to_node(v)),
                }
            }
        },
        Code::NewElement { name, sets, kids } => {
            proof {
                assert(sets_view(sets@).skip(0) =~= sets_view(sets@));
            }
            match eval_attrs(sets, 0, env) {
                None => None,
                Some(attrs) => {
                    proof {
                        assert(decreases_to!(kids => kids@));
                        assert(kids@.skip(0) =~= kids@);
                        assert(codes_view(kids@).skip(0) =~= codes_view(kids@));
                    }
                    match eval_list(kids, 0, env) {
                        None => None,
                        Some(items) => {
                            let spliced = splice_all(items);
                            Some(
                                DomNode::Element { tag: name.clone(), attrs, kids: spliced },
                            )
                        },
                    }
                },
            }
        },
        Code::NewFragment { kids } => {
            proof {
                assert(decreases_to!(kids => kids@));
                assert(kids@.skip(0) =~= kids@);
                assert(codes_view(kids@).skip(0) =~= codes_view(kids@));
            }
            match eval_list(kids, 0, env) {
                None => None,
                Some(items) => {
                    let spliced = splice_all(items);
                    Some(DomNode::Fragment { kids: spliced })
                },
            }
        },
        Code::NewComponent { .. } => None,
    }
}

/// Evaluates the child expressions from index `i` on, in order.
fn eval_list(kids: &Vec<Code>, i: usize, env: &Vec<Binding>) -> (r: Option<Vec<DomNode>>)
    requires
        i <= kids@.len(),
    ensures
        match r {
            Some(items) => sp_eval_list(codes_view(kids@).skip(i as int), env_view(env@)) == Some(
                doms_view(items@),
            ),
            None => sp_eval_list(codes_view(kids@).skip(i as int), env_view(env@)) is None,
        },
    decreases kids@.skip(i as int), 1int,
{
    let ghost kv = codes_view(kids@);
    proof {
        lemma_codes_view(kids@);
    }
    if i == kids.len() {
        let empty: Vec<DomNode> = Vec::new();
        proof {
            assert(kv.skip(i as int) =~= Seq::empty());
            assert(doms_view(empty@) =~= Seq::empty());
        }
        return Some(empty);
    }
    proof {
        assert(kv.skip(i as int)[0] == kv[i as int]);
        assert(kv[i as int] == kids@[i as int]@);
        assert(kids@.skip(i as int)[0] == kids@[i as int]);
        assert(decreases_to!(kids@.skip(i as int) => kids@.skip(i as int)[0]));
        assert(kids@.skip(i as int).subrange(1, kids@.skip(i as int).len() as int) =~= kids@.skip(
            i + 1,
        ));
        assert(kv.skip(i as int).drop_first() =~= kv.skip(i + 1));
    }
    match eval_code(&kids[i], env) {
        None => None,
        Some(d) => {
            let ghost dv = d@;
            match eval_list(kids, i + 1, env) {
                None => None,
                Some(rest) => {
                    let ghost rv = doms_view(rest@);
                    let mut out = rest;
                    out.insert(0, d);
                    proof {
                        assert(out@ == rest@.insert(0, d));
                        lemma_doms_view(out@);
                        lemma_doms_view(rest@);
                        assert(doms_view(out@) =~= seq![dv] + rv);
                    }
                    Some(out)
                },
            }
        },
    }
}

} // verus!
