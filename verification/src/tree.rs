//! A normalized parsed document tree, as handed over by whatever read the
//! preset document's bytes: the loader consumes this tree and never the raw
//! text.

use vstd::prelude::*;

verus! {

/// One node of a parsed preset document.
///
/// `Null` is the explicit removal marker of schema 1.1; `Other` stands for
/// any scalar the loader has no use for (a number, a boolean), which is only
/// legal under unrecognized keys.
#[derive(Debug)]
pub enum DocValue {
    Null,
    Str(String),
    List(Vec<DocValue>),
    Mapping(Vec<DocEntry>),
    Other,
}

/// One key/value pair of a document map node.
#[derive(Debug)]
pub struct DocEntry {
    pub key: String,
    pub value: DocValue,
}

/// The first value stored under `key`, scanning entries front to back.
pub open spec fn spec_entries_get(entries: Seq<DocEntry>, key: Seq<char>) -> Option<DocValue>
    decreases entries.len(),
{
    if entries.len() == 0 {
        Option::None
    } else if entries[0].key@ == key {
        Option::Some(entries[0].value)
    } else {
        spec_entries_get(entries.drop_first(), key)
    }
}

/// The value stored under `key` when the node is a map that holds it.
pub open spec fn spec_doc_get(doc: DocValue, key: Seq<char>) -> Option<DocValue> {
    match doc {
        DocValue::Mapping(entries) => spec_entries_get(entries@, key),
        _ => Option::None,
    }
}

/// Character-by-character string comparison.
pub(crate) fn str_eq(a: &str, b: &str) -> (r: bool)
    ensures
        r == (a@ == b@),
{
    let na = a.unicode_len();
    let nb = b.unicode_len();
    if na != nb {
        return false;
    }
    let mut i: usize = 0;
    while i < na
        invariant
            i <= na,
            na == a@.len(),
            na == b@.len(),
            forall|j: int| 0 <= j < i ==> a@[j] == b@[j],
        decreases na - i,
    {
        if a.get_char(i) != b.get_char(i) {
            return false;
        }
        i = i + 1;
    }
    proof {
        assert(a@ =~= b@);
    }
    true
}

impl DocValue {
    /// Looks `key` up in this node, yielding a value only when the node is a
    /// map holding the key.
    pub fn get<'a>(&'a self, key: &str) -> (r: Option<&'a DocValue>)
        ensures
            match r {
                Option::Some(v) => spec_doc_get(*self, key@) == Option::Some(*v),
                Option::None => spec_doc_get(*self, key@) is None,
            },
    {
        match self {
            DocValue::Mapping(entries) => {
                proof {
                    assert(*self == DocValue::Mapping(*entries));
                }
                let n = entries.len();
                let mut i: usize = 0;
                proof {
                    assert(entries@.skip(0) =~= entries@);
                }
                while i < n
                    invariant
                        i <= n,
                        n == entries@.len(),
                        *self == DocValue::Mapping(*entries),
                        spec_entries_get(entries@, key@) == spec_entries_get(
                            entries@.skip(i as int),
                            key@,
                        ),
                    decreases n - i,
                {
                    let hit = str_eq(entries[i].key.as_str(), key);
                    proof {
                        assert(entries@.skip(i as int)[0] == entries@[i as int]);
                        assert(entries@.skip(i as int).drop_first() =~= entries@.skip(i + 1));
                    }
                    if hit {
                        proof {
                            assert(spec_entries_get(entries@.skip(i as int), key@)
                                == Option::Some(entries@[i as int].value));
                            assert(spec_doc_get(*self, key@) == spec_entries_get(entries@, key@));
                        }
                        return Some(&entries[i].value);
                    }
                    i = i + 1;
                }
                proof {
                    assert(entries@.skip(n as int).len() == 0);
                }
                None
            },
            _ => None,
        }
    }
}

} // verus!
