//! The markup parser: token sequence to markup tree.
//!
//! The grammar is the JSX-like surface syntax: elements
//! `<name attr=value ...> children </name>`, self-closing elements
//! `<name attr=value ... />`, fragments `<> children </>`, and, as
//! children, literal tokens and brace-delimited host expressions. The
//! parser enforces well-formedness only: a closing tag must match its
//! opening tag, and exactly one root item must fill the input. It does no
//! semantic checking of names; that is the validator's job during code
//! generation.
//!
//! Parse failures are classified as: the input ended inside a construct
//! (`UnexpectedEnd`), a token out of place (`UnexpectedToken`, also used
//! for a closing tag whose name does not match its opening tag), or a
//! whole item out of place (`UnexpectedItem`: a closing tag with no open
//! construct, or a closing form of the wrong kind).
//!
//! The functions `sp_attrs`, `sp_item`, `sp_items`, `sp_parse` and
//! `sp_invocation` are the mathematical definition of the grammar; the
//! executable parser returns exactly their value.

use vstd::prelude::*;

use crate::ast::{Attr, AttrValue, AttrValueView, AttrView, MarkupNode, NodeView, attrs_view,
    lemma_nodes_view, nodes_view};
use crate::error::{Error, ErrorView};
use crate::tok::{Tok, TokView, flatten_toks, lemma_toks_view, spec_flatten, spec_tok_pos,
    toks_view};

verus! {

/// Parses `name=value` attribute pairs starting at `i`, stopping at the
/// first token that cannot start an attribute.
pub open spec fn sp_attrs(toks: Seq<TokView>, i: int) -> Result<(Seq<AttrView>, int), ErrorView>
    decreases toks.len() - i,
{
    if i >= toks.len() {
        Ok((Seq::empty(), i))
    } else {
        match toks[i] {
            TokView::Ident { text: aname, pos: apos } => {
                if i + 1 >= toks.len() {
                    Err(ErrorView::UnexpectedEnd)
                } else if !(toks[i + 1] is Assign) {
                    Err(ErrorView::UnexpectedToken { pos: spec_tok_pos(toks[i + 1]) })
                } else if i + 2 >= toks.len() {
                    Err(ErrorView::UnexpectedEnd)
                } else {
                    match toks[i + 2] {
                        TokView::Lit { text, pos } => {
                            let a = AttrView {
                                name: aname,
                                name_pos: apos,
                                value: AttrValueView::LitTok { text, pos },
                            };
                            match sp_attrs(toks, i + 3) {
                                Err(e) => Err(e),
                                Ok((rest, j)) => Ok((seq![a] + rest, j)),
                            }
                        },
                        TokView::Group { toks: g, pos } => {
                            let a = AttrView {
                                name: aname,
                                name_pos: apos,
                                value: AttrValueView::Braced { expr: spec_flatten(g), pos },
                            };
                            match sp_attrs(toks, i + 3) {
                                Err(e) => Err(e),
                                Ok((rest, j)) => Ok((seq![a] + rest, j)),
                            }
                        },
                        _ => Err(ErrorView::UnexpectedToken { pos: spec_tok_pos(toks[i + 2]) }),
                    }
                }
            },
            _ => Ok((Seq::empty(), i)),
        }
    }
}

/// Whether position `i` starts a closing form `</ ...`, which ends a child
/// list.
pub open spec fn sp_at_close(toks: Seq<TokView>, i: int) -> bool {
    &&& 0 <= i < toks.len()
    &&& toks[i] is Lt
    &&& i + 1 < toks.len()
    &&& toks[i + 1] is Slash
}

/// Parses one markup item starting at `i`.
pub open spec fn sp_item(toks: Seq<TokView>, i: int) -> Result<(NodeView, int), ErrorView>
    decreases toks.len() - i, 1int,
{
    if i >= toks.len() {
        Err(ErrorView::UnexpectedEnd)
    } else {
        match toks[i] {
            TokView::Lit { text, pos } => Ok((NodeView::Embedded { expr: text, pos }, i + 1)),
            TokView::Group { toks: g, pos } => Ok(
                (NodeView::Embedded { expr: spec_flatten(g), pos }, i + 1),
            ),
            TokView::Lt { pos: ltpos } => {
                if i + 1 >= toks.len() {
                    Err(ErrorView::UnexpectedEnd)
                } else {
                    match toks[i + 1] {
                        TokView::Gt { .. } => sp_fragment_tail(toks, i + 2),
                        TokView::Ident { text: name, pos: npos } => sp_tag_tail(
                            toks,
                            i,
                            name,
                            npos,
                        ),
                        TokView::Slash { .. } => Err(ErrorView::UnexpectedItem { pos: ltpos }),
                        _ => Err(ErrorView::UnexpectedToken { pos: spec_tok_pos(toks[i + 1]) }),
                    }
                }
            },
            _ => Err(ErrorView::UnexpectedToken { pos: spec_tok_pos(toks[i]) }),
        }
    }
}

/// Parses the rest of a fragment after `<>`: children, then `</>`.
pub open spec fn sp_fragment_tail(toks: Seq<TokView>, i: int) -> Result<
    (NodeView, int),
    ErrorView,
>
    decreases toks.len() - i, 3int,
{
    match sp_items(toks, i) {
        Err(e) => Err(e),
        Ok((kids, j)) => {
            if j >= toks.len() {
                Err(ErrorView::UnexpectedEnd)
            } else if !(toks[j] is Lt) {
                Err(ErrorView::UnexpectedToken { pos: spec_tok_pos(toks[j]) })
            } else if j + 1 >= toks.len() {
                Err(ErrorView::UnexpectedEnd)
            } else if !(toks[j + 1] is Slash) {
                Err(ErrorView::UnexpectedToken { pos: spec_tok_pos(toks[j + 1]) })
            } else if j + 2 >= toks.len() {
                Err(ErrorView::UnexpectedEnd)
            } else {
                match toks[j + 2] {
                    TokView::Gt { .. } => Ok((NodeView::Fragment { children: kids }, j + 3)),
                    TokView::Ident { .. } => Err(
                        // a named closing tag ends a fragment: the closing
                        // item is of the wrong kind
                        ErrorView::UnexpectedItem { pos: spec_tok_pos(toks[j]) },
                    ),
                    _ => Err(ErrorView::UnexpectedToken { pos: spec_tok_pos(toks[j + 2]) }),
                }
            }
        },
    }
}

/// Parses the rest of an element after `<name`: attributes, then either
/// `/>` or `>` children `</name>`.
pub open spec fn sp_tag_tail(toks: Seq<TokView>, i: int, name: Seq<u8>, npos: int) -> Result<
    (NodeView, int),
    ErrorView,
>
    decreases toks.len() - i, 0int,
{
    match sp_attrs(toks, i + 2) {
        Err(e) => Err(e),
        Ok((attrs, j)) => {
            if j < i + 2 {
                // attribute parsing never moves backwards; this branch is
                // only here to bound the recursion
                Err(ErrorView::UnexpectedEnd)
            } else if j >= toks.len() {
                Err(ErrorView::UnexpectedEnd)
            } else {
                match toks[j] {
                    TokView::Slash { .. } => {
                        if j + 1 >= toks.len() {
                            Err(ErrorView::UnexpectedEnd)
                        } else if toks[j + 1] is Gt {
                            Ok((NodeView::SelfClosing { name, name_pos: npos, attrs }, j + 2))
                        } else {
                            Err(ErrorView::UnexpectedToken { pos: spec_tok_pos(toks[j + 1]) })
                        }
                    },
                    TokView::Gt { .. } => {
                        match sp_items(toks, j + 1) {
                            Err(e) => Err(e),
                            Ok((kids, k)) => sp_tag_close(toks, k, name, npos, attrs, kids),
                        }
                    },
                    _ => Err(ErrorView::UnexpectedToken { pos: spec_tok_pos(toks[j]) }),
                }
            }
        },
    }
}

/// Checks the closing form `</name>` of an element whose children ended at
/// `k`.
pub open spec fn sp_tag_close(
    toks: Seq<TokView>,
    k: int,
    name: Seq<u8>,
    npos: int,
    attrs: Seq<AttrView>,
    kids: Seq<NodeView>,
) -> Result<(NodeView, int), ErrorView> {
    if k >= toks.len() {
        Err(ErrorView::UnexpectedEnd)
    } else if !(toks[k] is Lt) {
        Err(ErrorView::UnexpectedToken { pos: spec_tok_pos(toks[k]) })
    } else if k + 1 >= toks.len() {
        Err(ErrorView::UnexpectedEnd)
    } else if !(toks[k + 1] is Slash) {
        Err(ErrorView::UnexpectedToken { pos: spec_tok_pos(toks[k + 1]) })
    } else if k + 2 >= toks.len() {
        Err(ErrorView::UnexpectedEnd)
    } else {
        match toks[k + 2] {
            TokView::Ident { text: cname, pos: cpos } => {
                if cname == name {
                    if k + 3 >= toks.len() {
                        Err(ErrorView::UnexpectedEnd)
                    } else if toks[k + 3] is Gt {
                        Ok(
                            (
                                NodeView::Element { name, name_pos: npos, attrs, children: kids },
                                k + 4,
                            ),
                        )
                    } else {
                        Err(ErrorView::UnexpectedToken { pos: spec_tok_pos(toks[k + 3]) })
                    }
                } else {
                    // closing tag name does not match the opening tag
                    Err(ErrorView::UnexpectedToken { pos: cpos })
                }
            },
            TokView::Gt { .. } => Err(
                // a fragment close `</>` ends a named tag: the closing item
                // is of the wrong kind
                ErrorView::UnexpectedItem { pos: spec_tok_pos(toks[k]) },
            ),
            _ => Err(ErrorView::UnexpectedToken { pos: spec_tok_pos(toks[k + 2]) }),
        }
    }
}

/// Parses child items starting at `i`, stopping at the end of input or at
/// a closing form `</`.
pub open spec fn sp_items(toks: Seq<TokView>, i: int) -> Result<(Seq<NodeView>, int), ErrorView>
    decreases toks.len() - i, 2int,
{
    if i >= toks.len() {
        Ok((Seq::empty(), i))
    } else if sp_at_close(toks, i) {
        Ok((Seq::empty(), i))
    } else {
        match sp_item(toks, i) {
            Err(e) => Err(e),
            Ok((n, j)) => {
                if i < j <= toks.len() {
                    match sp_items(toks, j) {
                        Err(e) => Err(e),
                        Ok((rest, k)) => Ok((seq![n] + rest, k)),
                    }
                } else {
                    // an item never ends where it began; this branch is only
                    // here to bound the recursion
                    Ok((seq![n], j))
                }
            },
        }
    }
}

/// Parses a whole token sequence as exactly one root item.
pub open spec fn sp_parse(toks: Seq<TokView>) -> Result<NodeView, ErrorView> {
    match sp_item(toks, 0) {
        Err(e) => Err(e),
        Ok((n, j)) => {
            if j == toks.len() {
                Ok(n)
            } else {
                Err(ErrorView::UnexpectedToken { pos: spec_tok_pos(toks[j]) })
            }
        },
    }
}

/// Parses the invocation form `document => { body }`: a document handle,
/// a fat arrow, one braced body, and nothing after it.
pub open spec fn sp_invocation(toks: Seq<TokView>) -> Result<(Seq<u8>, Seq<TokView>), ErrorView> {
    if toks.len() == 0 {
        Err(ErrorView::UnexpectedEnd)
    } else {
        match toks[0] {
            TokView::Ident { text: doc, .. } => {
                if 1 >= toks.len() {
                    Err(ErrorView::UnexpectedEnd)
                } else if !(toks[1] is Assign) {
                    Err(ErrorView::UnexpectedToken { pos: spec_tok_pos(toks[1]) })
                } else if 2 >= toks.len() {
                    Err(ErrorView::UnexpectedEnd)
                } else if !(toks[2] is Gt) {
                    Err(ErrorView::UnexpectedToken { pos: spec_tok_pos(toks[2]) })
                } else if 3 >= toks.len() {
                    Err(ErrorView::UnexpectedEnd)
                } else {
                    match toks[3] {
                        TokView::Group { toks: body, .. } => {
                            if toks.len() == 4 {
                                Ok((doc, body))
                            } else {
                                Err(ErrorView::UnexpectedToken { pos: spec_tok_pos(toks[4]) })
                            }
                        },
                        _ => Err(ErrorView::UnexpectedToken { pos: spec_tok_pos(toks[3]) }),
                    }
                }
            },
            _ => Err(ErrorView::UnexpectedToken { pos: spec_tok_pos(toks[0]) }),
        }
    }
}

/// Parses attributes starting at `i`; returns the attributes in source
/// order and the position after them.
pub fn parse_attrs(toks: &Vec<Tok>, i: usize) -> (r: Result<(Vec<Attr>, usize), Error>)
    requires
        i <= toks@.len(),
    ensures
        match r {
            Ok((attrs, j)) => {
                &&& sp_attrs(toks_view(toks@), i as int) == Ok::<_, ErrorView>(
                    (attrs_view(attrs@), j as int),
                )
                &&& i <= j <= toks@.len()
            },
            Err(e) => sp_attrs(toks_view(toks@), i as int) == Err::<(Seq<AttrView>, int), _>(e@),
        },
    decreases toks@.len() - i,
{
    let ghost tv = toks_view(toks@);
    proof {
        lemma_toks_view(toks@);
    }
    if i == toks.len() {
        let empty: Vec<Attr> = Vec::new();
        proof {
            assert(attrs_view(empty@) =~= Seq::empty());
        }
        return Ok((empty, i));
    }
    match &toks[i] {
        Tok::Ident { text: aname, pos: apos } => {
            if i + 1 == toks.len() {
                return Err(Error::UnexpectedEnd);
            }
            match &toks[i + 1] {
                Tok::Assign { .. } => {},
                t => {
                    return Err(Error::UnexpectedToken { pos: t.pos() });
                },
            }
            if i + 2 == toks.len() {
                return Err(Error::UnexpectedEnd);
            }
            let value = match &toks[i + 2] {
                Tok::Lit { text, pos } => AttrValue::LitTok { text: text.clone(), pos: *pos },
                Tok::Group { toks: g, pos } => AttrValue::Braced {
                    expr: flatten_toks(g),
                    pos: *pos,
                },
                t => {
                    return Err(Error::UnexpectedToken { pos: t.pos() });
                },
            };
            let attr = Attr { name: aname.clone(), name_pos: *apos, value };
            let ghost av = attr@;
            match parse_attrs(toks, i + 3) {
                Err(e) => Err(e),
                Ok((rest, j)) => {
                    let ghost rv = attrs_view(rest@);
                    let mut out = rest;
                    out.insert(0, attr);
                    proof {
                        assert(attrs_view(out@) =~= seq![av] + rv) by {
                            assert(out@ == rest@.insert(0, attr));
                        }
                    }
                    Ok((out, j))
                },
            }
        },
        _ => {
            let empty: Vec<Attr> = Vec::new();
            proof {
                assert(attrs_view(empty@) =~= Seq::empty());
            }
            Ok((empty, i))
        },
    }
}

/// Parses one markup item starting at `i`; returns the item and the
/// position after it.
pub fn parse_item(toks: &Vec<Tok>, i: usize) -> (r: Result<(MarkupNode, usize), Error>)
    requires
        i <= toks@.len(),
    ensures
        match r {
            Ok((n, j)) => {
                &&& sp_item(toks_view(toks@), i as int) == Ok::<_, ErrorView>((n@, j as int))
                &&& i < j <= toks@.len()
            },
            Err(e) => sp_item(toks_view(toks@), i as int) == Err::<(NodeView, int), _>(e@),
        },
    decreases toks@.len() - i, 1int,
{
    let ghost tv = toks_view(toks@);
    proof {
        lemma_toks_view(toks@);
    }
    if i == toks.len() {
        return Err(Error::UnexpectedEnd);
    }
    match &toks[i] {
        Tok::Lit { text, pos } => Ok((MarkupNode::Embedded { expr: text.clone(), pos: *pos }, i + 1)),
        Tok::Group { toks: g, pos } => Ok(
            (MarkupNode::Embedded { expr: flatten_toks(g), pos: *pos }, i + 1),
        ),
        Tok::Lt { pos: ltpos } => {
            if i + 1 == toks.len() {
                return Err(Error::UnexpectedEnd);
            }
            match &toks[i + 1] {
                Tok::Gt { .. } => parse_fragment_tail(toks, i + 2),
                Tok::Ident { text: name, pos: npos } => parse_tag_tail(toks, i, name, *npos),
                Tok::Slash { .. } => Err(Error::UnexpectedItem { pos: *ltpos }),
                t => Err(Error::UnexpectedToken { pos: t.pos() }),
            }
        },
        t => Err(Error::UnexpectedToken { pos: t.pos() }),
    }
}

/// Parses the rest of a fragment after `<>`.
fn parse_fragment_tail(toks: &Vec<Tok>, i: usize) -> (r: Result<(MarkupNode, usize), Error>)
    requires
        i <= toks@.len(),
    ensures
        match r {
            Ok((n, j)) => {
                &&& sp_fragment_tail(toks_view(toks@), i as int) == Ok::<_, ErrorView>(
                    (n@, j as int),
                )
                &&& i < j <= toks@.len()
            },
            Err(e) => sp_fragment_tail(toks_view(toks@), i as int) == Err::<(NodeView, int), _>(e@),
        },
    decreases toks@.len() - i, 3int,
{
    let ghost tv = toks_view(toks@);
    proof {
        lemma_toks_view(toks@);
    }
    match parse_items(toks, i) {
        Err(e) => Err(e),
        Ok((kids, j)) => {
            if j == toks.len() {
                return Err(Error::UnexpectedEnd);
            }
            match &toks[j] {
                Tok::Lt { .. } => {},
                t => {
                    return Err(Error::UnexpectedToken { pos: t.pos() });
                },
            }
            if j + 1 == toks.len() {
                return Err(Error::UnexpectedEnd);
            }
            match &toks[j + 1] {
                Tok::Slash { .. } => {},
                t => {
                    return Err(Error::UnexpectedToken { pos: t.pos() });
                },
            }
            if j + 2 == toks.len() {
                return Err(Error::UnexpectedEnd);
            }
            match &toks[j + 2] {
                Tok::Gt { .. } => {
                    let n = MarkupNode::Fragment { children: kids };
                    proof {
                        assert(n@ == NodeView::Fragment { children: nodes_view(kids@) });
                    }
                    Ok((n, j + 3))
                },
                Tok::Ident { .. } => Err(Error::UnexpectedItem { pos: toks[j].pos() }),
                t => Err(Error::UnexpectedToken { pos: t.pos() }),
            }
        },
    }
}

/// Parses the rest of an element after `<name`.
fn parse_tag_tail(toks: &Vec<Tok>, i: usize, name: &Vec<u8>, npos: usize) -> (r: Result<
    (MarkupNode, usize),
    Error,
>)
    requires
        i + 2 <= toks@.len(),
    ensures
        match r {
            Ok((n, j)) => {
                &&& sp_tag_tail(toks_view(toks@), i as int, name@, npos as int) == Ok::<
                    _,
                    ErrorView,
                >((n@, j as int))
                &&& i < j <= toks@.len()
            },
            Err(e) => sp_tag_tail(toks_view(toks@), i as int, name@, npos as int) == Err::<
                (NodeView, int),
                _,
            >(e@),
        },
    decreases toks@.len() - i, 0int,
{
    let ghost tv = toks_view(toks@);
    proof {
        lemma_toks_view(toks@);
    }
    let n = toks.len();
    match parse_attrs(toks, i + 2) {
        Err(e) => Err(e),
        Ok((attrs, j)) => {
            if j == n {
                return Err(Error::UnexpectedEnd);
            }
            match &toks[j] {
                Tok::Slash { .. } => {
                    if j + 1 == toks.len() {
                        return Err(Error::UnexpectedEnd);
                    }
                    match &toks[j + 1] {
                        Tok::Gt { .. } => {
                            let n = MarkupNode::SelfClosing {
                                name: name.clone(),
                                name_pos: npos,
                                attrs,
                            };
                            Ok((n, j + 2))
                        },
                        t => Err(Error::UnexpectedToken { pos: t.pos() }),
                    }
                },
                Tok::Gt { .. } => {
                    match parse_items(toks, j + 1) {
                        Err(e) => Err(e),
                        Ok((kids, k)) => parse_tag_close(toks, k, name, npos, attrs, kids),
                    }
                },
                t => Err(Error::UnexpectedToken { pos: t.pos() }),
            }
        },
    }
}

/// Checks the closing form `</name>` of an element.
fn parse_tag_close(
    toks: &Vec<Tok>,
    k: usize,
    name: &Vec<u8>,
    npos: usize,
    attrs: Vec<Attr>,
    kids: Vec<MarkupNode>,
) -> (r: Result<(MarkupNode, usize), Error>)
    requires
        k <= toks@.len(),
    ensures
        match r {
            Ok((n, j)) => {
                &&& sp_tag_close(
                    toks_view(toks@),
                    k as int,
                    name@,
                    npos as int,
                    attrs_view(attrs@),
                    nodes_view(kids@),
                ) == Ok::<_, ErrorView>((n@, j as int))
                &&& k < j <= toks@.len()
            },
            Err(e) => sp_tag_close(
                toks_view(toks@),
                k as int,
                name@,
                npos as int,
                attrs_view(attrs@),
                nodes_view(kids@),
            ) == Err::<(NodeView, int), _>(e@),
        },
{
    let ghost tv = toks_view(toks@);
    proof {
        lemma_toks_view(toks@);
    }
    if k == toks.len() {
        return Err(Error::UnexpectedEnd);
    }
    match &toks[k] {
        Tok::Lt { .. } => {},
        t => {
            return Err(Error::UnexpectedToken { pos: t.pos() });
        },
    }
    if k + 1 == toks.len() {
        return Err(Error::UnexpectedEnd);
    }
    match &toks[k + 1] {
        Tok::Slash { .. } => {},
        t => {
            return Err(Error::UnexpectedToken { pos: t.pos() });
        },
    }
    if k + 2 == toks.len() {
        return Err(Error::UnexpectedEnd);
    }
    match &toks[k + 2] {
        Tok::Ident { text: cname, pos: cpos } => {
            if crate::bytes::bytes_eq(cname, name) {
                if k + 3 == toks.len() {
                    return Err(Error::UnexpectedEnd);
                }
                match &toks[k + 3] {
                    Tok::Gt { .. } => {
                        let n = MarkupNode::Element {
                            name: name.clone(),
                            name_pos: npos,
                            attrs,
                            children: kids,
                        };
                        Ok((n, k + 4))
                    },
                    t => Err(Error::UnexpectedToken { pos: t.pos() }),
                }
            } else {
                Err(Error::UnexpectedToken { pos: *cpos })
            }
        },
        Tok::Gt { .. } => Err(Error::UnexpectedItem { pos: toks[k].pos() }),
        t => Err(Error::UnexpectedToken { pos: t.pos() }),
    }
}

/// Parses child items starting at `i`, in source order.
pub fn parse_items(toks: &Vec<Tok>, i: usize) -> (r: Result<(Vec<MarkupNode>, usize), Error>)
    requires
        i <= toks@.len(),
    ensures
        match r {
            Ok((nodes, j)) => {
                &&& sp_items(toks_view(toks@), i as int) == Ok::<_, ErrorView>(
                    (nodes_view(nodes@), j as int),
                )
                &&& i <= j <= toks@.len()
            },
            Err(e) => sp_items(toks_view(toks@), i as int) == Err::<(Seq<NodeView>, int), _>(e@),
        },
    decreases toks@.len() - i, 2int,
{
    let ghost tv = toks_view(toks@);
    proof {
        lemma_toks_view(toks@);
    }
    if i == toks.len() {
        let empty: Vec<MarkupNode> = Vec::new();
        proof {
            assert(nodes_view(empty@) =~= Seq::empty());
        }
        return Ok((empty, i));
    }
    let at_close = match &toks[i] {
        Tok::Lt { .. } => {
            if i + 1 < toks.len() {
                match &toks[i + 1] {
                    Tok::Slash { .. } => true,
                    _ => false,
                }
            } else {
                false
            }
        },
        _ => false,
    };
    if at_close {
        let empty: Vec<MarkupNode> = Vec::new();
        proof {
            assert(sp_at_close(tv, i as int));
            assert(nodes_view(empty@) =~= Seq::empty());
        }
        return Ok((empty, i));
    }
    proof {
        assert(!sp_at_close(tv, i as int));
    }
    match parse_item(toks, i) {
        Err(e) => Err(e),
        Ok((n, j)) => {
            let ghost nv = n@;
            match parse_items(toks, j) {
                Err(e) => Err(e),
                Ok((rest, k)) => {
                    let ghost rv = nodes_view(rest@);
                    let mut out = rest;
                    out.insert(0, n);
                    proof {
                        assert(out@ == rest@.insert(0, n));
                        lemma_nodes_view(out@);
                        lemma_nodes_view(rest@);
                        assert(nodes_view(out@) =~= seq![nv] + rv);
                    }
                    Ok((out, k))
                },
            }
        },
    }
}

/// Parses a whole token sequence as exactly one root markup item.
pub fn parse(toks: &Vec<Tok>) -> (r: Result<MarkupNode, Error>)
    ensures
        match r {
            Ok(n) => sp_parse(toks_view(toks@)) == Ok::<_, ErrorView>(n@),
            Err(e) => sp_parse(toks_view(toks@)) == Err::<NodeView, _>(e@),
        },
{
    let ghost tv = toks_view(toks@);
    proof {
        lemma_toks_view(toks@);
    }
    match parse_item(toks, 0) {
        Err(e) => Err(e),
        Ok((n, j)) => {
            if j == toks.len() {
                Ok(n)
            } else {
                Err(Error::UnexpectedToken { pos: toks[j].pos() })
            }
        },
    }
}

/// Parses the invocation form `document => { body }` and hands back the
/// document handle's name and the body's tokens.
pub fn parse_invocation(toks: Vec<Tok>) -> (r: Result<(Vec<u8>, Vec<Tok>), Error>)
    ensures
        match r {
            Ok((doc, body)) => sp_invocation(toks_view(toks@)) == Ok::<_, ErrorView>(
                (doc@, toks_view(body@)),
            ),
            Err(e) => sp_invocation(toks_view(toks@)) == Err::<(Seq<u8>, Seq<TokView>), _>(e@),
        },
{
    let ghost tv = toks_view(toks@);
    proof {
        lemma_toks_view(toks@);
    }
    if toks.len() == 0 {
        return Err(Error::UnexpectedEnd);
    }
    let doc = match &toks[0] {
        Tok::Ident { text, .. } => text.clone(),
        t => {
            return Err(Error::UnexpectedToken { pos: t.pos() });
        },
    };
    if toks.len() == 1 {
        return Err(Error::UnexpectedEnd);
    }
    match &toks[1] {
        Tok::Assign { .. } => {},
        t => {
            return Err(Error::UnexpectedToken { pos: t.pos() });
        },
    }
    if toks.len() == 2 {
        return Err(Error::UnexpectedEnd);
    }
    match &toks[2] {
        Tok::Gt { .. } => {},
        t => {
            return Err(Error::UnexpectedToken { pos: t.pos() });
        },
    }
    if toks.len() == 3 {
        return Err(Error::UnexpectedEnd);
    }
    match &toks[3] {
        Tok::Group { .. } => {},
        t => {
            return Err(Error::UnexpectedToken { pos: t.pos() });
        },
    }
    if toks.len() > 4 {
        return Err(Error::UnexpectedToken { pos: toks[4].pos() });
    }
    let mut toks = toks;
    let last = toks.pop();
    match last {
        Some(Tok::Group { toks: body, .. }) => Ok((doc, body)),
        _ => {
            proof {
                assert(false);
            }
            Err(Error::UnexpectedEnd)
        },
    }
}

} // verus!
