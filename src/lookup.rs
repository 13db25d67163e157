//! Headword search over a dictionary.
use vstd::prelude::*;
use crate::entry::{Entry, EntryModel};
use crate::text::{eq_ignore_ascii_case, same_ignoring_ascii_case};

verus! {

/// An entry answers a query when its headword equals the query up to ASCII case.
pub open spec fn answers(e: EntryModel, query: Seq<char>) -> bool {
    same_ignoring_ascii_case(e.word, query)
}

/// The entries that answer a query, in dictionary order.
pub open spec fn search_spec(entries: Seq<Entry>, query: Seq<char>) -> Seq<Entry> {
    entries.filter(|e: Entry| answers(e@, query))
}

/// The entries a list of references points at.
pub open spec fn targets(r: Seq<&Entry>) -> Seq<Entry> {
    r.map_values(|e: &Entry| *e)
}

/// Returns every entry whose headword equals `query` up to ASCII case, in the
/// order in which the entries stand.
pub fn search_word<'a>(entries: &'a [Entry], query: &str) -> (r: Vec<&'a Entry>)
    ensures
        targets(r@) == search_spec(entries@, query@),
{
    let mut found: Vec<&'a Entry> = Vec::new();
    let mut i: usize = 0;
    while i < entries.len()
        invariant
            i <= entries@.len(),
            targets(found@) == search_spec(entries@.subrange(0, i as int), query@),
        decreases entries.len() - i,
    {
        let e = &entries[i];
        proof {
            let next = entries@.subrange(0, i as int + 1);
            assert(next.drop_last() =~= entries@.subrange(0, i as int));
            reveal_with_fuel(Seq::filter, 1);
            assert(next.last() == entries@[i as int]);
        }
        let ghost before = found@;
        if eq_ignore_ascii_case(e.word.as_str(), query) {
            found.push(e);
            assert(targets(found@) =~= targets(before).push(entries@[i as int]));
        }
        i = i + 1;
    }
    assert(entries@.subrange(0, entries@.len() as int) =~= entries@);
    found
}

/// Queries that differ only in the case of ASCII letters find the same
/// entries, in the same order.
pub proof fn lemma_search_ignores_case(entries: Seq<Entry>, q1: Seq<char>, q2: Seq<char>)
    requires
        same_ignoring_ascii_case(q1, q2),
    ensures
        search_spec(entries, q1) == search_spec(entries, q2),
{
    assert((|e: Entry| answers(e@, q1)) =~= (|e: Entry| answers(e@, q2)));
}

} // verus!
