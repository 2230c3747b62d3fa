//! The token model that the compiler consumes.
//!
//! The host language's tokenizer is outside this crate: whatever front end
//! drives the compiler turns the host token stream into this shape, one
//! token per host token, with a numeric source position for diagnostics.
//! The four punctuation marks that the markup grammar gives meaning to are
//! distinguished; every other host token is carried opaquely.

use vstd::prelude::*;

verus! {

broadcast use {
    vstd::std_specs::vec::axiom_vec_index_decreases,
    vstd::std_specs::vec::axiom_vec_decreases_to_view,
    vstd::seq::axiom_seq_index_decreases,
    vstd::seq::axiom_seq_subrange_decreases,
};

/// The byte value of `<`.
pub const ASCII_LT: u8 = 60;

/// The byte value of `>`.
pub const ASCII_GT: u8 = 62;

/// The byte value of `/`.
pub const ASCII_SLASH: u8 = 47;

/// The byte value of `=`.
pub const ASCII_EQUALS: u8 = 61;

/// The byte value of a space.
pub const ASCII_SPACE: u8 = 32;

/// The byte value of `{`.
pub const ASCII_LBRACE: u8 = 123;

/// The byte value of `}`.
pub const ASCII_RBRACE: u8 = 125;

/// The mathematical model of a token.
pub enum TokView {
    Lt { pos: int },
    Gt { pos: int },
    Slash { pos: int },
    Assign { pos: int },
    Ident { text: Seq<u8>, pos: int },
    Lit { text: Seq<u8>, pos: int },
    Group { toks: Seq<TokView>, pos: int },
    Raw { text: Seq<u8>, pos: int },
}

/// One token of the input handed to the compiler.
///
/// `Lt`, `Gt`, `Slash` and `Assign` are the punctuation marks `<`, `>`,
/// `/` and `=`. `Ident` is an identifier, `Lit` a literal token with its
/// source text (a string literal keeps its quotes), `Group` a
/// brace-delimited group of tokens, and `Raw` any other host token,
/// spelled out as text.
#[derive(Debug)]
pub enum Tok {
    Lt { pos: usize },
    Gt { pos: usize },
    Slash { pos: usize },
    Assign { pos: usize },
    Ident { text: Vec<u8>, pos: usize },
    Lit { text: Vec<u8>, pos: usize },
    Group { toks: Vec<Tok>, pos: usize },
    Raw { text: Vec<u8>, pos: usize },
}

/// The views of a sequence of tokens.
pub open spec fn toks_view(s: Seq<Tok>) -> Seq<TokView>
    decreases s,
{
    if s.len() == 0 {
        Seq::empty()
    } else {
        toks_view(s.drop_last()).push(s.last().view())
    }
}

impl View for Tok {
    type V = TokView;

    open spec fn view(&self) -> TokView
        decreases self,
    {
        match self {
            Tok::Lt { pos } => TokView::Lt { pos: *pos as int },
            Tok::Gt { pos } => TokView::Gt { pos: *pos as int },
            Tok::Slash { pos } => TokView::Slash { pos: *pos as int },
            Tok::Assign { pos } => TokView::Assign { pos: *pos as int },
            Tok::Ident { text, pos } => TokView::Ident { text: text@, pos: *pos as int },
            Tok::Lit { text, pos } => TokView::Lit { text: text@, pos: *pos as int },
            Tok::Group { toks, pos } => TokView::Group { toks: toks_view(toks@), pos: *pos as int },
            Tok::Raw { text, pos } => TokView::Raw { text: text@, pos: *pos as int },
        }
    }
}

/// `toks_view` maps the view over the sequence, element by element.
pub proof fn lemma_toks_view(s: Seq<Tok>)
    ensures
        toks_view(s).len() == s.len(),
        forall|i: int|
            #![trigger toks_view(s)[i]]
            #![trigger s[i]@]
            0 <= i < s.len() ==> toks_view(s)[i] == s[i]@,
    decreases s,
{
    if s.len() > 0 {
        assert(toks_view(s) == toks_view(s.drop_last()).push(s.last().view()));
        lemma_toks_view(s.drop_last());
        assert forall|i: int| 0 <= i < s.len() implies toks_view(s)[i] == #[trigger] s[i]@ by {
            if i < s.len() - 1 {
                assert(s.drop_last()[i] == s[i]);
                assert(toks_view(s)[i] == toks_view(s.drop_last())[i]);
            } else {
                assert(toks_view(s)[i] == s.last()@);
            }
        }
    }
}

/// The source position a token carries.
pub open spec fn spec_tok_pos(t: TokView) -> int {
    match t {
        TokView::Lt { pos } => pos,
        TokView::Gt { pos } => pos,
        TokView::Slash { pos } => pos,
        TokView::Assign { pos } => pos,
        TokView::Ident { pos, .. } => pos,
        TokView::Lit { pos, .. } => pos,
        TokView::Group { pos, .. } => pos,
        TokView::Raw { pos, .. } => pos,
    }
}

impl Tok {
    /// The source position of this token.
    pub fn pos(&self) -> (p: usize)
        ensures
            p as int == spec_tok_pos(self@),
    {
        match self {
            Tok::Lt { pos } => *pos,
            Tok::Gt { pos } => *pos,
            Tok::Slash { pos } => *pos,
            Tok::Assign { pos } => *pos,
            Tok::Ident { pos, .. } => *pos,
            Tok::Lit { pos, .. } => *pos,
            Tok::Group { pos, .. } => *pos,
            Tok::Raw { pos, .. } => *pos,
        }
    }
}

/// The canonical text of one token: punctuation spells itself, text-bearing
/// tokens give their text, and a group is its flattened content in braces.
pub open spec fn spec_tok_text(t: TokView) -> Seq<u8>
    decreases t,
{
    match t {
        TokView::Lt { .. } => seq![ASCII_LT],
        TokView::Gt { .. } => seq![ASCII_GT],
        TokView::Slash { .. } => seq![ASCII_SLASH],
        TokView::Assign { .. } => seq![ASCII_EQUALS],
        TokView::Ident { text, .. } => text,
        TokView::Lit { text, .. } => text,
        TokView::Group { toks, .. } => seq![ASCII_LBRACE] + spec_flatten(toks) + seq![ASCII_RBRACE],
        TokView::Raw { text, .. } => text,
    }
}

/// The canonical text of a token sequence: the tokens' texts joined by
/// single spaces. An embedded host expression is carried through the
/// compiler as this text.
pub open spec fn spec_flatten(s: Seq<TokView>) -> Seq<u8>
    decreases s, 1int,
{
    if s.len() == 0 {
        Seq::empty()
    } else if s.len() == 1 {
        spec_tok_text(s[0])
    } else {
        spec_tok_text(s[0]) + seq![ASCII_SPACE] + spec_flatten(s.drop_first())
    }
}

/// The canonical text of one token.
pub fn tok_text(t: &Tok) -> (r: Vec<u8>)
    ensures
        r@ == spec_tok_text(t@),
    decreases *t,
{
    match t {
        Tok::Lt { .. } => {
            let r = vec![ASCII_LT];
            proof {
                assert(r@ =~= seq![ASCII_LT]);
            }
            r
        },
        Tok::Gt { .. } => {
            let r = vec![ASCII_GT];
            proof {
                assert(r@ =~= seq![ASCII_GT]);
            }
            r
        },
        Tok::Slash { .. } => {
            let r = vec![ASCII_SLASH];
            proof {
                assert(r@ =~= seq![ASCII_SLASH]);
            }
            r
        },
        Tok::Assign { .. } => {
            let r = vec![ASCII_EQUALS];
            proof {
                assert(r@ =~= seq![ASCII_EQUALS]);
            }
            r
        },
        Tok::Ident { text, .. } => text.clone(),
        Tok::Lit { text, .. } => text.clone(),
        Tok::Raw { text, .. } => text.clone(),
        Tok::Group { toks, .. } => {
            let mut r: Vec<u8> = Vec::new();
            r.push(ASCII_LBRACE);
            proof {
                assert(toks@.skip(0) =~= toks@);
                assert(decreases_to!(toks => toks@));
            }
            let mut inner = flatten_from(toks, 0);
            r.append(&mut inner);
            r.push(ASCII_RBRACE);
            proof {
                assert(toks_view(toks@).skip(0) =~= toks_view(toks@));
                assert(r@ =~= seq![ASCII_LBRACE] + spec_flatten(toks_view(toks@)) + seq![
                    ASCII_RBRACE,
                ]);
            }
            r
        },
    }
}

fn flatten_from(toks: &Vec<Tok>, i: usize) -> (r: Vec<u8>)
    requires
        i <= toks@.len(),
    ensures
        r@ == spec_flatten(toks_view(toks@).skip(i as int)),
    decreases toks@.skip(i as int),
{
    let ghost tv = toks_view(toks@);
    proof {
        lemma_toks_view(toks@);
    }
    if i == toks.len() {
        proof {
            assert(tv.skip(i as int) =~= Seq::empty());
        }
        Vec::new()
    } else {
        proof {
            assert(tv.skip(i as int)[0] == tv[i as int]);
            assert(tv[i as int] == toks@[i as int]@);
            assert(toks@.skip(i as int)[0] == toks@[i as int]);
            assert(decreases_to!(toks@.skip(i as int) => toks@.skip(i as int)[0]));
        }
        let mut r = tok_text(&toks[i]);
        if i + 1 == toks.len() {
            proof {
                assert(tv.skip(i as int).len() == 1);
                assert(spec_flatten(tv.skip(i as int)) == spec_tok_text(tv.skip(i as int)[0]));
            }
            r
        } else {
            r.push(ASCII_SPACE);
            proof {
                assert(tv.skip(i as int).subrange(1, tv.skip(i as int).len() as int) =~= tv.skip(
                    i + 1,
                ));
                assert(tv.skip(i as int).drop_first() =~= tv.skip(i + 1));
                assert(toks@.skip(i as int).subrange(1, toks@.skip(i as int).len() as int) =~= toks@
                    .skip(i + 1));
            }
            let mut rest = flatten_from(toks, i + 1);
            r.append(&mut rest);
            proof {
                assert(r@ =~= spec_tok_text(tv.skip(i as int)[0]) + seq![ASCII_SPACE]
                    + spec_flatten(tv.skip(i as int).drop_first()));
            }
            r
        }
    }
}

/// The canonical text of a token sequence.
pub fn flatten_toks(toks: &Vec<Tok>) -> (r: Vec<u8>)
    ensures
        r@ == spec_flatten(toks_view(toks@)),
{
    let r = flatten_from(toks, 0);
    proof {
        assert(toks_view(toks@).skip(0) =~= toks_view(toks@));
    }
    r
}

} // verus!
