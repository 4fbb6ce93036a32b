//! A JSON document as a tree of plain values, and its mathematical model.

use vstd::prelude::*;
use vstd::utf8::*;

verus! {

/// The model of a JSON document.
///
/// A number that fits `i64` is `Int`; any other number is `Real` and holds
/// its decimal text. The entries of a record keep their order, and a key may
/// occur more than once.
pub enum Doc {
    Null,
    Bool(bool),
    Int(i64),
    Real(Seq<char>),
    Text(Seq<char>),
    List(Seq<Doc>),
    Record(Seq<(Seq<char>, Doc)>),
}

/// The value that `entries` binds to `key`: that of the last entry with this
/// key, as a later binding replaces an earlier one.
pub open spec fn entry_of(entries: Seq<(Seq<char>, Doc)>, key: Seq<char>) -> Option<Doc>
    decreases entries.len(),
{
    if entries.len() == 0 {
        None
    } else if entries.last().0 == key {
        Some(entries.last().1)
    } else {
        entry_of(entries.drop_last(), key)
    }
}

impl Doc {
    /// The member of a record under `key`. A document that is no record has
    /// no members.
    pub open spec fn member(self, key: Seq<char>) -> Option<Doc> {
        match self {
            Doc::Record(entries) => entry_of(entries, key),
            _ => None,
        }
    }
}

/// A JSON document.
#[derive(Debug, PartialEq)]
pub enum Json {
    Null,
    Bool(bool),
    /// A number that fits `i64`.
    Int(i64),
    /// Any other number, as its decimal text.
    Real(String),
    Text(String),
    List(Vec<Json>),
    Record(Vec<(String, Json)>),
}

impl View for Json {
    type V = Doc;

    open spec fn view(&self) -> Doc
        decreases self,
    {
        match self {
            Json::Null => Doc::Null,
            Json::Bool(b) => Doc::Bool(*b),
            Json::Int(n) => Doc::Int(*n),
            Json::Real(t) => Doc::Real(t@),
            Json::Text(t) => Doc::Text(t@),
            Json::List(items) => Doc::List(docs_of(items@)),
            Json::Record(entries) => Doc::Record(entries_of(entries@)),
        }
    }
}

/// The models of `items`, in order.
pub open spec fn docs_of(items: Seq<Json>) -> Seq<Doc>
    decreases items,
{
    if items.len() == 0 {
        Seq::empty()
    } else {
        docs_of(items.drop_last()).push(items.last()@)
    }
}

/// The models of `entries`, in order: each key with the model of its value.
pub open spec fn entries_of(entries: Seq<(String, Json)>) -> Seq<(Seq<char>, Doc)>
    decreases entries,
{
    if entries.len() == 0 {
        Seq::empty()
    } else {
        entries_of(entries.drop_last()).push((entries.last().0@, entries.last().1@))
    }
}

/// `docs_of` keeps the length and maps item by item.
pub proof fn lemma_docs_of(items: Seq<Json>)
    ensures
        docs_of(items).len() == items.len(),
        forall|i: int| 0 <= i < items.len() ==> #[trigger] docs_of(items)[i] == items[i]@,
    decreases items.len(),
{
    if items.len() > 0 {
        lemma_docs_of(items.drop_last());
        assert(docs_of(items) == docs_of(items.drop_last()).push(items.last()@));
    } else {
        assert(docs_of(items) == Seq::<Doc>::empty());
    }
}

/// `entries_of` keeps the length and maps entry by entry.
pub proof fn lemma_entries_of(entries: Seq<(String, Json)>)
    ensures
        entries_of(entries).len() == entries.len(),
        forall|i: int|
            0 <= i < entries.len() ==> #[trigger] entries_of(entries)[i] == (
                entries[i].0@,
                entries[i].1@,
            ),
    decreases entries.len(),
{
    if entries.len() > 0 {
        lemma_entries_of(entries.drop_last());
        assert(entries_of(entries) == entries_of(entries.drop_last()).push(
            (entries.last().0@, entries.last().1@),
        ));
    } else {
        assert(entries_of(entries) == Seq::<(Seq<char>, Doc)>::empty());
    }
}

/// Whether two strings hold the same characters.
pub fn same_text(a: &str, b: &str) -> (same: bool)
    ensures
        same == (a@ == b@),
{
    let x = a.as_bytes();
    let y = b.as_bytes();
    proof {
        encode_utf8_decode_utf8(a@);
        encode_utf8_decode_utf8(b@);
    }
    if x.len() != y.len() {
        return false;
    }
    let mut i: usize = 0;
    while i < x.len()
        invariant
            x@.len() == y@.len(),
            i <= x@.len(),
            forall|k: int| 0 <= k < i ==> x@[k] == y@[k],
            a@ == b@ ==> x@ == y@,
        decreases x@.len() - i,
    {
        if x[i] != y[i] {
            return false;
        }
        i += 1;
    }
    proof {
        assert(x@ =~= y@);
    }
    true
}

impl Json {
    /// Whether this document is a record.
    pub fn is_record(&self) -> (b: bool)
        ensures
            b == (self@ is Record),
    {
        match self {
            Json::Record(_) => true,
            _ => false,
        }
    }

    /// The member of a record under `key`, if this is a record that has one.
    pub fn member(&self, key: &str) -> (found: Option<&Json>)
        ensures
            match found {
                Some(j) => self@.member(key@) == Some(j@),
                None => self@.member(key@) is None,
            },
    {
        match self {
            Json::Record(entries) => {
                let ghost all = entries_of(entries@);
                proof {
                    lemma_entries_of(entries@);
                    assert(all.subrange(0, all.len() as int) =~= all);
                }
                let mut i: usize = entries.len();
                while i > 0
                    invariant
                        i <= entries@.len(),
                        self@ == Doc::Record(all),
                        all.len() == entries@.len(),
                        forall|k: int|
                            0 <= k < all.len() ==> all[k] == (entries@[k].0@, entries@[k].1@),
                        entry_of(all, key@) == entry_of(all.subrange(0, i as int), key@),
                    decreases i,
                {
                    i -= 1;
                    let ghost upto = all.subrange(0, i + 1);
                    proof {
                        assert(upto.last() == all[i as int]);
                        assert(upto.drop_last() =~= all.subrange(0, i as int));
                    }
                    if same_text(entries[i].0.as_str(), key) {
                        return Some(&entries[i].1);
                    }
                }
                proof {
                    assert(all.subrange(0, 0).len() == 0);
                }
                None
            },
            _ => None,
        }
    }
}

} // verus!
