//! The lines shown for the result of a lookup.
use vstd::prelude::*;
use crate::entry::{Entry, EntryModel};
use crate::lookup::{search_spec, search_word, targets};

verus! {

/// Shown in place of a category that the entry does not have.
pub open spec fn unspecified() -> Seq<char> {
    "Belirtilmemiş"@
}

pub open spec fn category_text(c: Option<Seq<char>>) -> Seq<char> {
    match c {
        Some(s) => s,
        None => unspecified(),
    }
}

/// `word (category) [type]: translation`
pub open spec fn entry_line(e: EntryModel) -> Seq<char> {
    e.word + " ("@ + category_text(e.category) + ") ["@ + e.entry_type + "]: "@ + e.tr
}

/// The line that says a query matched nothing.
pub open spec fn not_found_line(query: Seq<char>) -> Seq<char> {
    query + " kelimesi bulunamadı."@
}

/// The lines of a lookup's answer: one per match, or the not-found line.
pub open spec fn report_spec(query: Seq<char>, found: Seq<Entry>) -> Seq<Seq<char>> {
    if found.len() == 0 {
        seq![not_found_line(query)]
    } else {
        found.map_values(|e: Entry| entry_line(e@))
    }
}

pub open spec fn texts(lines: Seq<String>) -> Seq<Seq<char>> {
    lines.map_values(|s: String| s@)
}

/// Renders one entry; an entry without a category shows the placeholder.
pub fn render_entry(e: &Entry) -> (r: String)
    ensures
        r@ == entry_line(e@),
{
    let mut s = e.word.clone();
    s.append(" (");
    match &e.category {
        Some(c) => s.append(c.as_str()),
        None => s.append("Belirtilmemiş"),
    }
    s.append(") [");
    s.append(e.entry_type.as_str());
    s.append("]: ");
    s.append(e.tr.as_str());
    s
}

/// Renders the line that says `query` matched nothing.
pub fn render_not_found(query: &str) -> (r: String)
    ensures
        r@ == not_found_line(query@),
{
    let mut s = query.to_owned();
    s.append(" kelimesi bulunamadı.");
    s
}

/// Renders the matches of `query`, one line each in order, or the not-found
/// line when there are none.
pub fn render_results(query: &str, found: &[&Entry]) -> (r: Vec<String>)
    ensures
        texts(r@) == report_spec(query@, targets(found@)),
{
    let mut lines: Vec<String> = Vec::new();
    if found.len() == 0 {
        lines.push(render_not_found(query));
        assert(texts(lines@) =~= report_spec(query@, targets(found@)));
        return lines;
    }
    let mut i: usize = 0;
    while i < found.len()
        invariant
            i <= found@.len(),
            texts(lines@) == targets(found@).subrange(0, i as int).map_values(
                |e: Entry| entry_line(e@),
            ),
        decreases found.len() - i,
    {
        let ghost before = lines@;
        lines.push(render_entry(found[i]));
        assert(texts(lines@) =~= texts(before).push(entry_line(found@[i as int]@)));
        assert(targets(found@).subrange(0, i as int + 1) =~= targets(found@).subrange(
            0,
            i as int,
        ).push(*found@[i as int]));
        i = i + 1;
    }
    assert(targets(found@).subrange(0, found@.len() as int) =~= targets(found@));
    lines
}

/// Looks `query` up and renders the answer.
pub fn answer(entries: &[Entry], query: &str) -> (r: Vec<String>)
    ensures
        texts(r@) == report_spec(query@, search_spec(entries@, query@)),
{
    let found = search_word(entries, query);
    render_results(query, found.as_slice())
}

} // verus!
