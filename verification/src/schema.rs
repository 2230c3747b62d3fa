//! The schema table: a name-sorted registry of the known tags.
//!
//! Each entry maps a tag name to the name of its underlying node type, its
//! content-model categories, its allowed child kinds, and its allowed
//! non-global attribute names. Categories and child kinds are recorded for
//! information only; attribute names are enforced. The table is kept
//! strictly sorted by name, so lookup is a binary search; the sortedness
//! is an invariant that the builder establishes and every insertion
//! preserves.
//!
//! An attribute is accepted on a tag when it is in the tag's own
//! allowed-attribute list or in the table's global allow-list. Which
//! attributes count as global is a configuration decision: the standard
//! table installs a default list, and a schema built through
//! `Schema::empty` takes its own.

use vstd::prelude::*;

use crate::bytes::{ByteCmp, bseq_view, cmp_bytes, lemma_lex_asymm, lemma_lex_irrefl,
    lemma_lex_total, lemma_lex_trans, lex_lt, spec_contains_bytes};
use crate::error::{Error, ErrorView};

verus! {

/// The content models a tag can belong to.
#[derive(Clone, Copy, Debug, PartialEq, Eq, Structural)]
pub enum ContentModel {
    Metadata,
    Flow,
    Sectioning,
    Heading,
    Phrasing,
    Embedded,
    Interactive,
}

/// The mathematical model of an allowed child kind.
pub enum ChildRuleView {
    Transparent,
    Text,
    Model { model: ContentModel },
    Tag { name: Seq<u8> },
}

/// What kind of child a tag allows: the parent's own content, text,
/// elements of a content model, or one specific tag.
#[derive(Debug)]
pub enum ChildRule {
    Transparent,
    Text,
    Model { model: ContentModel },
    Tag { name: Vec<u8> },
}

impl View for ChildRule {
    type V = ChildRuleView;

    open spec fn view(&self) -> ChildRuleView {
        match self {
            ChildRule::Transparent => ChildRuleView::Transparent,
            ChildRule::Text => ChildRuleView::Text,
            ChildRule::Model { model } => ChildRuleView::Model { model: *model },
            ChildRule::Tag { name } => ChildRuleView::Tag { name: name@ },
        }
    }
}

/// The mathematical model of a tag entry.
pub struct TagInfoView {
    pub name: Seq<u8>,
    pub ty: Seq<u8>,
    pub categories: Seq<ContentModel>,
    pub children: Seq<ChildRuleView>,
    pub attributes: Seq<Seq<u8>>,
}

/// One entry of the schema table.
#[derive(Debug)]
pub struct TagInfo {
    /// The tag's name, e.g. `a`, `br` or `img`.
    pub name: Vec<u8>,
    /// The name of the tag's underlying node type, e.g. `HtmlDivElement`.
    pub ty: Vec<u8>,
    /// The content models the tag belongs to (informational).
    pub categories: Vec<ContentModel>,
    /// The child kinds the tag allows (informational).
    pub children: Vec<ChildRule>,
    /// The tag's allowed non-global attribute names (enforced).
    pub attributes: Vec<Vec<u8>>,
}

impl View for TagInfo {
    type V = TagInfoView;

    open spec fn view(&self) -> TagInfoView {
        TagInfoView {
            name: self.name@,
            ty: self.ty@,
            categories: self.categories@,
            children: self.children@.map_values(|c: ChildRule| c@),
            attributes: bseq_view(self.attributes@),
        }
    }
}

/// The views of a sequence of tag entries.
pub open spec fn table_view(s: Seq<TagInfo>) -> Seq<TagInfoView> {
    s.map_values(|t: TagInfo| t@)
}

/// The table is strictly sorted by name.
pub open spec fn sp_sorted(t: Seq<TagInfoView>) -> bool {
    forall|i: int, j: int| 0 <= i < j < t.len() ==> lex_lt(#[trigger] t[i].name, #[trigger] t[j].name)
}

/// The entry of the table under a name: the first entry carrying it.
pub open spec fn sp_find(t: Seq<TagInfoView>, name: Seq<u8>) -> Option<TagInfoView>
    decreases t.len(),
{
    if t.len() == 0 {
        None
    } else if t[0].name == name {
        Some(t[0])
    } else {
        sp_find(t.drop_first(), name)
    }
}

/// In a sorted table, an entry with a matching name is what `sp_find`
/// returns.
pub proof fn lemma_find_present(t: Seq<TagInfoView>, name: Seq<u8>, i: int)
    requires
        sp_sorted(t),
        0 <= i < t.len(),
        t[i].name == name,
    ensures
        sp_find(t, name) == Some(t[i]),
    decreases t.len(),
{
    if i == 0 {
    } else {
        assert(lex_lt(t[0].name, t[i].name));
        assert(t[0].name != name) by {
            lemma_lex_irrefl(t[i].name);
        }
        let d = t.drop_first();
        assert forall|m: int, n: int| 0 <= m < n < d.len() implies lex_lt(
            #[trigger] d[m].name,
            #[trigger] d[n].name,
        ) by {
            assert(d[m] == t[m + 1] && d[n] == t[n + 1]);
        }
        assert(d[i - 1] == t[i]);
        lemma_find_present(d, name, i - 1);
    }
}

/// When no entry carries the name, `sp_find` returns nothing.
pub proof fn lemma_find_absent(t: Seq<TagInfoView>, name: Seq<u8>)
    requires
        forall|i: int| 0 <= i < t.len() ==> (#[trigger] t[i].name) != name,
    ensures
        sp_find(t, name) is None,
    decreases t.len(),
{
    if t.len() > 0 {
        let d = t.drop_first();
        assert forall|i: int| 0 <= i < d.len() implies (#[trigger] d[i].name) != name by {
            assert(d[i] == t[i + 1]);
        }
        lemma_find_absent(d, name);
    }
}

/// Insertion into a sorted table: before the first entry that is not
/// smaller, replacing it when its name is the same.
pub open spec fn sp_insert(t: Seq<TagInfoView>, x: TagInfoView) -> Seq<TagInfoView>
    decreases t.len(),
{
    if t.len() == 0 {
        seq![x]
    } else if lex_lt(x.name, t[0].name) {
        seq![x] + t
    } else if x.name == t[0].name {
        seq![x] + t.drop_first()
    } else {
        seq![t[0]] + sp_insert(t.drop_first(), x)
    }
}

/// `sp_insert` puts the new entry exactly at the position that the
/// entries' order determines.
pub proof fn lemma_insert_at(t: Seq<TagInfoView>, x: TagInfoView, idx: int)
    requires
        sp_sorted(t),
        0 <= idx <= t.len(),
        forall|m: int| 0 <= m < idx ==> lex_lt((#[trigger] t[m].name), x.name),
        idx < t.len() ==> !lex_lt(t[idx].name, x.name),
    ensures
        sp_insert(t, x) == if idx < t.len() && t[idx].name == x.name {
            t.update(idx, x)
        } else {
            t.insert(idx, x)
        },
    decreases t.len(),
{
    if idx == 0 {
        if t.len() == 0 {
            assert(sp_insert(t, x) =~= t.insert(0, x));
        } else {
            lemma_lex_total(x.name, t[0].name);
            if lex_lt(x.name, t[0].name) {
                assert(t[0].name != x.name) by {
                    lemma_lex_irrefl(t[0].name);
                }
                assert(sp_insert(t, x) =~= t.insert(0, x));
            } else {
                assert(x.name == t[0].name);
                assert(sp_insert(t, x) =~= t.update(0, x));
            }
        }
    } else {
        assert(lex_lt(t[0].name, x.name));
        assert(x.name != t[0].name) by {
            lemma_lex_irrefl(t[0].name);
        }
        assert(!lex_lt(x.name, t[0].name)) by {
            lemma_lex_asymm(t[0].name, x.name);
        }
        let d = t.drop_first();
        assert forall|m: int, n: int| 0 <= m < n < d.len() implies lex_lt(
            #[trigger] d[m].name,
            #[trigger] d[n].name,
        ) by {
            assert(d[m] == t[m + 1] && d[n] == t[n + 1]);
        }
        assert forall|m: int| 0 <= m < idx - 1 implies lex_lt((#[trigger] d[m].name), x.name) by {
            assert(d[m] == t[m + 1]);
        }
        assert(idx - 1 < d.len() ==> !lex_lt(d[idx - 1].name, x.name)) by {
            if idx - 1 < d.len() {
                assert(d[idx - 1] == t[idx]);
            }
        }
        lemma_insert_at(d, x, idx - 1);
        if idx < t.len() && t[idx].name == x.name {
            assert(d[idx - 1] == t[idx]);
            assert(sp_insert(t, x) =~= t.update(idx, x));
        } else {
            assert(sp_insert(t, x) =~= t.insert(idx, x));
        }
    }
}

/// The position that keeps a sorted table sorted when a new name goes in:
/// after every smaller name, and before the first that is not smaller.
fn find_insert_pos(table: &Vec<TagInfo>, name: &Vec<u8>) -> (idx: usize)
    requires
        sp_sorted(table_view(table@)),
    ensures
        idx <= table@.len(),
        forall|m: int|
            0 <= m < idx ==> lex_lt((#[trigger] table_view(table@)[m].name), name@),
        idx < table@.len() ==> !lex_lt(table_view(table@)[idx as int].name, name@),
{
    let ghost tv = table_view(table@);
    let mut idx: usize = 0;
    loop
        invariant
            tv == table_view(table@),
            idx <= table@.len(),
            forall|m: int| 0 <= m < idx ==> lex_lt((#[trigger] tv[m].name), name@),
        decreases table@.len() - idx,
    {
        if idx == table.len() {
            return idx;
        }
        let c = cmp_bytes(&table[idx].name, name);
        proof {
            assert(tv[idx as int] == table@[idx as int]@);
        }
        match c {
            ByteCmp::Less => {
                idx = idx + 1;
            },
            ByteCmp::Equal => {
                proof {
                    lemma_lex_irrefl(name@);
                }
                return idx;
            },
            ByteCmp::Greater => {
                proof {
                    lemma_lex_asymm(name@, tv[idx as int].name);
                }
                return idx;
            },
        }
    }
}

/// The mathematical model of the schema.
pub struct SchemaView {
    pub table: Seq<TagInfoView>,
    pub globals: Seq<Seq<u8>>,
}

/// The schema: the sorted tag table and the global attribute allow-list.
#[derive(Debug)]
pub struct Schema {
    table: Vec<TagInfo>,
    globals: Vec<Vec<u8>>,
}

/// Whether an attribute name is acceptable on a tag: in the tag's own
/// list, or global.
pub open spec fn sp_attr_allowed(info: TagInfoView, globals: Seq<Seq<u8>>, attr: Seq<u8>) -> bool {
    spec_contains_bytes(info.attributes, attr) || spec_contains_bytes(globals, attr)
}

impl View for Schema {
    type V = SchemaView;

    closed spec fn view(&self) -> SchemaView {
        SchemaView { table: table_view(self.table@), globals: bseq_view(self.globals@) }
    }
}

impl Schema {
    /// The sortedness invariant of the table.
    pub open spec fn wf(&self) -> bool {
        sp_sorted(self@.table)
    }

    /// An empty schema with the given global attribute allow-list.
    pub fn empty(globals: Vec<Vec<u8>>) -> (r: Schema)
        ensures
            r.wf(),
            r@.table == Seq::<TagInfoView>::empty(),
            r@.globals == bseq_view(globals@),
    {
        let r = Schema { table: Vec::new(), globals };
        proof {
            assert(table_view(r.table@) =~= Seq::<TagInfoView>::empty());
        }
        r
    }

    /// Inserts one entry, keeping the table sorted; an entry already under
    /// the same name is replaced.
    pub fn insert_tag(&mut self, info: TagInfo)
        requires
            old(self).wf(),
        ensures
            final(self).wf(),
            final(self)@.table == sp_insert(old(self)@.table, info@),
            final(self)@.globals == old(self)@.globals,
    {
        let ghost tv = table_view(self.table@);
        let ghost xv = info@;
        let idx = find_insert_pos(&self.table, &info.name);
        proof {
            lemma_insert_at(tv, xv, idx as int);
        }
        if idx < self.table.len() {
            let c = cmp_bytes(&self.table[idx].name, &info.name);
            match c {
                ByteCmp::Equal => {
                    self.table.set(idx, info);
                    proof {
                        assert(table_view(self.table@) =~= tv.update(idx as int, xv));
                        Self::lemma_update_same_name_sorted(tv, xv, idx as int);
                    }
                },
                _ => {
                    self.table.insert(idx, info);
                    proof {
                        assert(table_view(self.table@) =~= tv.insert(idx as int, xv));
                        Self::lemma_insert_pos_sorted(tv, xv, idx as int);
                    }
                },
            }
        } else {
            self.table.push(info);
            proof {
                assert(table_view(self.table@) =~= tv.insert(idx as int, xv));
                Self::lemma_insert_pos_sorted(tv, xv, idx as int);
            }
        }
    }

    proof fn lemma_update_same_name_sorted(t: Seq<TagInfoView>, x: TagInfoView, idx: int)
        requires
            sp_sorted(t),
            0 <= idx < t.len(),
            t[idx].name == x.name,
        ensures
            sp_sorted(t.update(idx, x)),
    {
        let u = t.update(idx, x);
        assert forall|i: int, j: int| 0 <= i < j < u.len() implies lex_lt(
            #[trigger] u[i].name,
            #[trigger] u[j].name,
        ) by {
            assert(lex_lt(t[i].name, t[j].name));
        }
    }

    proof fn lemma_insert_pos_sorted(t: Seq<TagInfoView>, x: TagInfoView, idx: int)
        requires
            sp_sorted(t),
            0 <= idx <= t.len(),
            forall|m: int| 0 <= m < idx ==> lex_lt((#[trigger] t[m].name), x.name),
            idx < t.len() ==> !lex_lt(t[idx].name, x.name),
            idx < t.len() ==> t[idx].name != x.name,
        ensures
            sp_sorted(t.insert(idx, x)),
    {
        let u = t.insert(idx, x);
        assert(idx < t.len() ==> lex_lt(x.name, t[idx].name)) by {
            if idx < t.len() {
                lemma_lex_total(x.name, t[idx].name);
            }
        }
        assert forall|m: int| idx <= m < t.len() implies lex_lt(x.name, (#[trigger] t[m].name)) by {
            if m > idx {
                lemma_lex_trans(x.name, t[idx].name, t[m].name);
            }
        }
        assert forall|i: int, j: int| 0 <= i < j < u.len() implies lex_lt(
            #[trigger] u[i].name,
            #[trigger] u[j].name,
        ) by {
            if i < idx {
                assert(u[i] == t[i]);
            }
            if j < idx {
                assert(u[j] == t[j]);
            }
            if i > idx {
                assert(u[i] == t[i - 1]);
            }
            if j > idx {
                assert(u[j] == t[j - 1]);
            }
            if i == idx {
                assert(u[i] == x);
            }
            if j == idx {
                assert(u[j] == x);
            }
        }
    }

    /// Whether the table is sorted; always true of a schema built through
    /// this type's own operations, offered as the self-check that a
    /// non-production build can run.
    pub fn is_sorted(&self) -> (r: bool)
        ensures
            r == self.wf(),
    {
        let ghost tv = table_view(self.table@);
        let mut i: usize = 0;
        loop
            invariant
                tv == table_view(self.table@),
                i <= self.table.len(),
                forall|m: int, n: int|
                    0 <= m < n < tv.len() && n <= i ==> lex_lt(
                        #[trigger] tv[m].name,
                        #[trigger] tv[n].name,
                    ),
            decreases self.table@.len() - i,
        {
            if i == self.table.len() || i + 1 == self.table.len() {
                proof {
                    assert forall|m: int, n: int| 0 <= m < n < tv.len() implies lex_lt(
                        #[trigger] tv[m].name,
                        #[trigger] tv[n].name,
                    ) by {
                        assert(n <= i);
                    }
                }
                return true;
            }
            let c = cmp_bytes(&self.table[i].name, &self.table[i + 1].name);
            match c {
                ByteCmp::Less => {
                    proof {
                        assert(lex_lt(tv[i as int].name, tv[i + 1].name));
                        assert forall|m: int, n: int|
                            0 <= m < n < tv.len() && n <= i + 1 implies lex_lt(
                            #[trigger] tv[m].name,
                            #[trigger] tv[n].name,
                        ) by {
                            if n == i + 1 && m < i {
                                lemma_lex_trans(tv[m].name, tv[i as int].name, tv[n].name);
                            }
                        }
                    }
                    i = i + 1;
                },
                _ => {
                    proof {
                        assert(!lex_lt(tv[i as int].name, tv[i + 1].name));
                    }
                    return false;
                },
            }
        }
    }

    /// Looks up a tag by name with a binary search over the sorted table;
    /// an absent name is the unknown-tag diagnostic, carrying the name and
    /// the given position.
    pub fn from_name<'a>(&'a self, name: &Vec<u8>, pos: usize) -> (r: Result<&'a TagInfo, Error>)
        requires
            self.wf(),
        ensures
            match r {
                Ok(info) => sp_find(self@.table, name@) == Some(info@),
                Err(e) => {
                    &&& sp_find(self@.table, name@) is None
                    &&& e@ == (ErrorView::UnknownTag { name: name@, pos: pos as int })
                },
            },
    {
        let ghost tv = table_view(self.table@);
        let mut lo: usize = 0;
        let mut hi: usize = self.table.len();
        while lo < hi
            invariant
                tv == table_view(self.table@),
                sp_sorted(tv),
                lo <= hi <= self.table@.len(),
                forall|m: int| 0 <= m < lo ==> lex_lt((#[trigger] tv[m].name), name@),
                forall|m: int| hi <= m < tv.len() ==> lex_lt(name@, (#[trigger] tv[m].name)),
            decreases hi - lo,
        {
            let mid = lo + (hi - lo) / 2;
            let c = cmp_bytes(&self.table[mid].name, name);
            match c {
                ByteCmp::Less => {
                    proof {
                        assert(lex_lt(tv[mid as int].name, name@));
                        assert forall|m: int| 0 <= m < mid + 1 implies lex_lt(
                            (#[trigger] tv[m].name),
                            name@,
                        ) by {
                            if m < mid {
                                lemma_lex_trans(tv[m].name, tv[mid as int].name, name@);
                            }
                        }
                    }
                    lo = mid + 1;
                },
                ByteCmp::Greater => {
                    proof {
                        assert(lex_lt(name@, tv[mid as int].name));
                        assert forall|m: int| mid <= m < tv.len() implies lex_lt(
                            name@,
                            (#[trigger] tv[m].name),
                        ) by {
                            if m > mid {
                                lemma_lex_trans(name@, tv[mid as int].name, tv[m].name);
                            }
                        }
                    }
                    hi = mid;
                },
                ByteCmp::Equal => {
                    proof {
                        lemma_find_present(tv, name@, mid as int);
                    }
                    return Ok(&self.table[mid]);
                },
            }
        }
        proof {
            assert forall|m: int| 0 <= m < tv.len() implies (#[trigger] tv[m].name) != name@ by {
                if m < lo {
                    lemma_lex_irrefl(name@);
                    if tv[m].name == name@ {
                        assert(lex_lt(name@, name@));
                    }
                } else {
                    lemma_lex_irrefl(name@);
                    if tv[m].name == name@ {
                        assert(lex_lt(name@, name@));
                    }
                }
            }
            lemma_find_absent(tv, name@);
        }
        Err(Error::UnknownTag { name: name.clone(), pos })
    }

    /// Checks one attribute name against a tag: accepted when the tag's
    /// own list or the global allow-list carries it, and otherwise the
    /// invalid-attribute diagnostic naming both.
    pub fn check_attribute(&self, info: &TagInfo, attr: &Vec<u8>, pos: usize) -> (r: Result<
        (),
        Error,
    >)
        ensures
            match r {
                Ok(_) => sp_attr_allowed(info@, self@.globals, attr@),
                Err(e) => {
                    &&& !sp_attr_allowed(info@, self@.globals, attr@)
                    &&& e@ == (ErrorView::InvalidAttr {
                        attr: attr@,
                        tag: info@.name,
                        pos: pos as int,
                    })
                },
            },
    {
        if crate::bytes::contains_bytes(&info.attributes, attr) {
            return Ok(());
        }
        if crate::bytes::contains_bytes(&self.globals, attr) {
            return Ok(());
        }
        Err(Error::InvalidAttr { attr: attr.clone(), tag: info.name.clone(), pos })
    }
}

} // verus!
