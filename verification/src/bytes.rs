//! Byte-string helpers: lexicographic (byte-wise) ordering, equality, and the
//! small predicates on names that the compiler needs.
//!
//! All names handled by this crate (tag names, attribute names, identifiers,
//! expression text) are byte strings, compared in plain byte order.

use vstd::prelude::*;

verus! {

/// The byte value of ASCII `a`.
pub const ASCII_A: u8 = 97;

/// The byte value of ASCII `z`.
pub const ASCII_Z: u8 = 122;

/// The byte value of the ASCII double quote.
pub const ASCII_QUOTE: u8 = 34;

/// Three-way result of a lexicographic byte-string comparison.
#[derive(Clone, Copy, Debug, PartialEq, Eq, Structural)]
pub enum ByteCmp {
    Less,
    Equal,
    Greater,
}

/// Strict lexicographic order on byte strings: `a` comes before `b`
/// when `a` is a proper prefix of `b`, or the first differing byte of `a`
/// is smaller.
pub open spec fn lex_lt(a: Seq<u8>, b: Seq<u8>) -> bool
    decreases a.len(),
{
    if b.len() == 0 {
        false
    } else if a.len() == 0 {
        true
    } else if a[0] < b[0] {
        true
    } else if a[0] > b[0] {
        false
    } else {
        lex_lt(a.drop_first(), b.drop_first())
    }
}

/// No byte string comes before itself.
pub proof fn lemma_lex_irrefl(a: Seq<u8>)
    ensures
        !lex_lt(a, a),
    decreases a.len(),
{
    if a.len() > 0 {
        lemma_lex_irrefl(a.drop_first());
    }
}

/// Any two byte strings are ordered or equal.
pub proof fn lemma_lex_total(a: Seq<u8>, b: Seq<u8>)
    ensures
        lex_lt(a, b) || lex_lt(b, a) || a == b,
    decreases a.len(),
{
    if a.len() == 0 && b.len() == 0 {
        assert(a =~= b);
    } else if a.len() > 0 && b.len() > 0 && a[0] == b[0] {
        lemma_lex_total(a.drop_first(), b.drop_first());
        if !lex_lt(a, b) && !lex_lt(b, a) {
            assert(a.drop_first() == b.drop_first());
            assert forall|i: int| 0 <= i < a.len() implies a[i] == b[i] by {
                if i > 0 {
                    assert(a.drop_first()[i - 1] == a[i]);
                    assert(b.drop_first()[i - 1] == b[i]);
                }
            }
            assert(a =~= b);
        }
    }
}

/// The order is asymmetric: at most one direction holds.
pub proof fn lemma_lex_asymm(a: Seq<u8>, b: Seq<u8>)
    ensures
        lex_lt(a, b) ==> !lex_lt(b, a),
    decreases a.len(),
{
    if a.len() > 0 && b.len() > 0 && a[0] == b[0] {
        lemma_lex_asymm(a.drop_first(), b.drop_first());
    }
}

/// The order is transitive.
pub proof fn lemma_lex_trans(a: Seq<u8>, b: Seq<u8>, c: Seq<u8>)
    ensures
        lex_lt(a, b) && lex_lt(b, c) ==> lex_lt(a, c),
    decreases a.len(),
{
    if a.len() > 0 && b.len() > 0 && c.len() > 0 && a[0] == b[0] && b[0] == c[0] {
        lemma_lex_trans(a.drop_first(), b.drop_first(), c.drop_first());
    }
}

fn cmp_bytes_from(a: &Vec<u8>, b: &Vec<u8>, i: usize) -> (r: ByteCmp)
    requires
        i <= a@.len(),
        i <= b@.len(),
    ensures
        (r == ByteCmp::Less) == lex_lt(a@.skip(i as int), b@.skip(i as int)),
        (r == ByteCmp::Greater) == lex_lt(b@.skip(i as int), a@.skip(i as int)),
        (r == ByteCmp::Equal) == (a@.skip(i as int) == b@.skip(i as int)),
    decreases a@.len() - i,
{
    let ghost sa = a@.skip(i as int);
    let ghost sb = b@.skip(i as int);
    if i == a.len() && i == b.len() {
        proof {
            assert(sa =~= sb);
        }
        ByteCmp::Equal
    } else if i == a.len() {
        proof {
            assert(sa.len() == 0 && sb.len() > 0);
            assert(sa != sb);
        }
        ByteCmp::Less
    } else if i == b.len() {
        proof {
            assert(sb.len() == 0 && sa.len() > 0);
            assert(sa != sb);
        }
        ByteCmp::Greater
    } else if a[i] < b[i] {
        proof {
            assert(sa[0] == a@[i as int] && sb[0] == b@[i as int]);
            assert(sa[0] != sb[0]);
            assert(sa != sb);
        }
        ByteCmp::Less
    } else if a[i] > b[i] {
        proof {
            assert(sa[0] == a@[i as int] && sb[0] == b@[i as int]);
            assert(sa[0] != sb[0]);
            assert(sa != sb);
        }
        ByteCmp::Greater
    } else {
        let r = cmp_bytes_from(a, b, i + 1);
        proof {
            assert(sa[0] == a@[i as int] && sb[0] == b@[i as int]);
            assert(sa.drop_first() =~= a@.skip(i + 1));
            assert(sb.drop_first() =~= b@.skip(i + 1));
            if r == ByteCmp::Equal {
                assert(sa =~= sb) by {
                    assert(sa.drop_first() == sb.drop_first());
                    assert forall|j: int| 0 <= j < sa.len() implies sa[j] == sb[j] by {
                        if j > 0 {
                            assert(sa[j] == sa.drop_first()[j - 1]);
                            assert(sb[j] == sb.drop_first()[j - 1]);
                        }
                    }
                }
            } else {
                assert(sa.drop_first() != sb.drop_first());
                assert(sa != sb) by {
                    if sa == sb {
                        assert(sa.drop_first() == sb.drop_first());
                    }
                }
            }
        }
        r
    }
}

/// Compares two byte strings in lexicographic byte order.
pub fn cmp_bytes(a: &Vec<u8>, b: &Vec<u8>) -> (r: ByteCmp)
    ensures
        (r == ByteCmp::Less) == lex_lt(a@, b@),
        (r == ByteCmp::Greater) == lex_lt(b@, a@),
        (r == ByteCmp::Equal) == (a@ == b@),
{
    proof {
        assert(a@.skip(0) =~= a@);
        assert(b@.skip(0) =~= b@);
    }
    cmp_bytes_from(a, b, 0)
}

/// Equality of two byte strings.
pub fn bytes_eq(a: &Vec<u8>, b: &Vec<u8>) -> (r: bool)
    ensures
        r == (a@ == b@),
{
    let r = a == b;
    proof {
        if vstd::std_specs::cmp::PartialEqSpec::eq_spec(a, b) {
            assert(a@ =~= b@);
        }
    }
    r
}

/// Whether a name begins with an ASCII lowercase letter; such names resolve
/// against the schema table, all others are component references.
pub open spec fn spec_starts_lowercase(s: Seq<u8>) -> bool {
    s.len() > 0 && ASCII_A <= s[0] <= ASCII_Z
}

/// Whether a tag name starts with an ASCII lowercase letter.
pub fn starts_lowercase(s: &Vec<u8>) -> (r: bool)
    ensures
        r == spec_starts_lowercase(s@),
{
    s.len() > 0 && ASCII_A <= s[0] && s[0] <= ASCII_Z
}

/// Whether a literal token's text is a quoted string literal.
pub open spec fn spec_is_quoted(s: Seq<u8>) -> bool {
    s.len() > 0 && s[0] == ASCII_QUOTE
}

/// Whether a literal token's text starts with a double quote.
pub fn is_quoted(s: &Vec<u8>) -> (r: bool)
    ensures
        r == spec_is_quoted(s@),
{
    s.len() > 0 && s[0] == ASCII_QUOTE
}

/// The views of a sequence of byte vectors.
pub open spec fn bseq_view(s: Seq<Vec<u8>>) -> Seq<Seq<u8>> {
    s.map_values(|v: Vec<u8>| v@)
}

/// Membership of a byte string in a list of byte strings.
pub open spec fn spec_contains_bytes(s: Seq<Seq<u8>>, x: Seq<u8>) -> bool {
    exists|i: int| 0 <= i < s.len() && s[i] == x
}

/// Whether `x` occurs in `list`.
pub fn contains_bytes(list: &Vec<Vec<u8>>, x: &Vec<u8>) -> (r: bool)
    ensures
        r == spec_contains_bytes(bseq_view(list@), x@),
{
    let mut i: usize = 0;
    while i < list.len()
        invariant
            i <= list@.len(),
            forall|j: int| 0 <= j < i ==> bseq_view(list@)[j] != x@,
        decreases list@.len() - i,
    {
        if bytes_eq(&list[i], x) {
            proof {
                assert(bseq_view(list@)[i as int] == x@);
            }
            return true;
        }
        i = i + 1;
    }
    false
}

} // verus!
