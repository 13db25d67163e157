//! The dictionary entry and its mathematical model.
use vstd::prelude::*;

verus! {

/// One dictionary record: a headword, an optional category, a type tag and
/// the translation.
#[derive(Debug, Clone, PartialEq, Eq)]
pub struct Entry {
    pub word: String,
    pub category: Option<String>,
    pub entry_type: String,
    pub tr: String,
}

/// What an entry holds, as character sequences.
pub struct EntryModel {
    pub word: Seq<char>,
    pub category: Option<Seq<char>>,
    pub entry_type: Seq<char>,
    pub tr: Seq<char>,
}

pub open spec fn opt_text(o: Option<String>) -> Option<Seq<char>> {
    match o {
        Some(s) => Some(s@),
        None => None,
    }
}

impl View for Entry {
    type V = EntryModel;

    open spec fn view(&self) -> EntryModel {
        EntryModel {
            word: self.word@,
            category: opt_text(self.category),
            entry_type: self.entry_type@,
            tr: self.tr@,
        }
    }
}

} // verus!
