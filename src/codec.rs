//! Dictionary records: the JSON text is read by serde_json into records of
//! named fields, and each record is decoded into an [`Entry`] by the rules of
//! the dictionary format.
use vstd::prelude::*;
use crate::entry::{Entry, EntryModel, opt_text};
use crate::text::same_text;

verus! {

/// The value of one field of a record, as far as decoding cares.
#[derive(Debug, Clone, PartialEq, Eq)]
pub enum FieldValue {
    Null,
    Text(String),
    Other,
}

pub enum FieldModel {
    Null,
    Text(Seq<char>),
    Other,
}

impl View for FieldValue {
    type V = FieldModel;

    open spec fn view(&self) -> FieldModel {
        match self {
            FieldValue::Null => FieldModel::Null,
            FieldValue::Text(s) => FieldModel::Text(s@),
            FieldValue::Other => FieldModel::Other,
        }
    }
}

/// One JSON object of the dictionary: its keys with their values.
pub type Record = Vec<(String, FieldValue)>;

pub type RecordModel = Seq<(Seq<char>, FieldModel)>;

pub open spec fn record_model(r: Seq<(String, FieldValue)>) -> RecordModel {
    r.map_values(|p: (String, FieldValue)| (p.0@, p.1@))
}

pub open spec fn records_model(rs: Seq<Record>) -> Seq<RecordModel> {
    rs.map_values(|r: Record| record_model(r@))
}

pub open spec fn entries_model(es: Seq<Entry>) -> Seq<EntryModel> {
    es.map_values(|e: Entry| e@)
}

/// The fields of an entry.
#[derive(Debug, Clone, Copy, PartialEq, Eq, Structural)]
pub enum FieldName {
    Word,
    Category,
    EntryType,
    Translation,
}

/// The key under which a field is written in the dictionary file.
pub open spec fn key_of(f: FieldName) -> Seq<char> {
    match f {
        FieldName::Word => seq!['w', 'o', 'r', 'd'],
        FieldName::Category => seq!['c', 'a', 't', 'e', 'g', 'o', 'r', 'y'],
        FieldName::EntryType => seq!['t', 'y', 'p', 'e'],
        FieldName::Translation => seq!['t', 'r'],
    }
}

impl FieldName {
    pub fn key(&self) -> (r: &'static str)
        ensures
            r@ == key_of(*self),
    {
        match self {
            FieldName::Word => {
                proof {
                    reveal_strlit("word");
                }
                assert("word"@ =~= key_of(*self));
                "word"
            },
            FieldName::Category => {
                proof {
                    reveal_strlit("category");
                }
                assert("category"@ =~= key_of(*self));
                "category"
            },
            FieldName::EntryType => {
                proof {
                    reveal_strlit("type");
                }
                assert("type"@ =~= key_of(*self));
                "type"
            },
            FieldName::Translation => {
                proof {
                    reveal_strlit("tr");
                }
                assert("tr"@ =~= key_of(*self));
                "tr"
            },
        }
    }
}

/// Why a dictionary could not be decoded.
#[derive(Debug, Clone, Copy, PartialEq, Eq, Structural)]
pub enum DecodeError {
    /// The text is not a JSON array of objects; the position is where the
    /// reader stopped (one-based line and column).
    Malformed { line: usize, column: usize },
    /// The record at this index has no such field.
    MissingField { record: usize, field: FieldName },
    /// The record at this index holds something other than a string there
    /// (or `null` in a required field).
    NotText { record: usize, field: FieldName },
}

/// The value of the first field with this key, from position `i` on.
pub open spec fn lookup_from(rec: RecordModel, key: Seq<char>, i: int) -> Option<FieldModel>
    decreases rec.len() - i,
{
    if i < 0 || i >= rec.len() {
        None
    } else if rec[i].0 == key {
        Some(rec[i].1)
    } else {
        lookup_from(rec, key, i + 1)
    }
}

pub open spec fn lookup(rec: RecordModel, key: Seq<char>) -> Option<FieldModel> {
    lookup_from(rec, key, 0)
}

/// A field that must hold a string.
pub open spec fn required_spec(index: usize, rec: RecordModel, f: FieldName) -> Result<
    Seq<char>,
    DecodeError,
> {
    match lookup(rec, key_of(f)) {
        None => Err(DecodeError::MissingField { record: index, field: f }),
        Some(FieldModel::Text(s)) => Ok(s),
        Some(_) => Err(DecodeError::NotText { record: index, field: f }),
    }
}

/// A field that may be absent or `null`, and otherwise holds a string.
pub open spec fn optional_spec(index: usize, rec: RecordModel, f: FieldName) -> Result<
    Option<Seq<char>>,
    DecodeError,
> {
    match lookup(rec, key_of(f)) {
        None => Ok(None),
        Some(FieldModel::Null) => Ok(None),
        Some(FieldModel::Text(s)) => Ok(Some(s)),
        Some(FieldModel::Other) => Err(DecodeError::NotText { record: index, field: f }),
    }
}

/// The entry a record decodes to, or the first fault found, fields taken in
/// the order word, category, type, translation.
pub open spec fn decode_record_spec(index: usize, rec: RecordModel) -> Result<
    EntryModel,
    DecodeError,
> {
    match required_spec(index, rec, FieldName::Word) {
        Err(e) => Err(e),
        Ok(word) => match optional_spec(index, rec, FieldName::Category) {
            Err(e) => Err(e),
            Ok(category) => match required_spec(index, rec, FieldName::EntryType) {
                Err(e) => Err(e),
                Ok(entry_type) => match required_spec(index, rec, FieldName::Translation) {
                    Err(e) => Err(e),
                    Ok(tr) => Ok(EntryModel { word, category, entry_type, tr }),
                },
            },
        },
    }
}

/// The entries that the first `n` records decode to, or the fault of the
/// first record that does not decode.
pub open spec fn decode_prefix(recs: Seq<RecordModel>, n: nat) -> Result<
    Seq<EntryModel>,
    DecodeError,
>
    decreases n,
{
    if n == 0 {
        Ok(Seq::empty())
    } else {
        match decode_prefix(recs, (n - 1) as nat) {
            Err(e) => Err(e),
            Ok(es) => match decode_record_spec((n - 1) as usize, recs[n - 1]) {
                Err(e) => Err(e),
                Ok(m) => Ok(es.push(m)),
            },
        }
    }
}

pub open spec fn decode_all(recs: Seq<RecordModel>) -> Result<Seq<EntryModel>, DecodeError> {
    decode_prefix(recs, recs.len())
}

fn find_field<'a>(rec: &'a Record, key: &str) -> (r: Option<&'a FieldValue>)
    ensures
        match r {
            None => lookup(record_model(rec@), key@) is None,
            Some(v) => lookup(record_model(rec@), key@) == Some(v@),
        },
{
    let ghost m = record_model(rec@);
    let mut i: usize = 0;
    while i < rec.len()
        invariant
            i <= rec@.len(),
            m == record_model(rec@),
            lookup(m, key@) == lookup_from(m, key@, i as int),
        decreases rec.len() - i,
    {
        if same_text(rec[i].0.as_str(), key) {
            return Some(&rec[i].1);
        }
        i = i + 1;
    }
    None
}

fn required_text(index: usize, rec: &Record, f: FieldName) -> (r: Result<String, DecodeError>)
    ensures
        match r {
            Ok(s) => required_spec(index, record_model(rec@), f) == Ok::<Seq<char>, DecodeError>(s@),
            Err(e) => required_spec(index, record_model(rec@), f) == Err::<Seq<char>, DecodeError>(e),
        },
{
    match find_field(rec, f.key()) {
        None => Err(DecodeError::MissingField { record: index, field: f }),
        Some(FieldValue::Text(s)) => Ok(s.clone()),
        Some(_) => Err(DecodeError::NotText { record: index, field: f }),
    }
}

fn optional_text(index: usize, rec: &Record, f: FieldName) -> (r: Result<
    Option<String>,
    DecodeError,
>)
    ensures
        match r {
            Ok(o) => optional_spec(index, record_model(rec@), f) == Ok::<
                Option<Seq<char>>,
                DecodeError,
            >(opt_text(o)),
            Err(e) => optional_spec(index, record_model(rec@), f) == Err::<
                Option<Seq<char>>,
                DecodeError,
            >(e),
        },
{
    match find_field(rec, f.key()) {
        None => Ok(None),
        Some(FieldValue::Null) => Ok(None),
        Some(FieldValue::Text(s)) => Ok(Some(s.clone())),
        Some(FieldValue::Other) => Err(DecodeError::NotText { record: index, field: f }),
    }
}

/// Decodes the record standing at `index` of the dictionary.
pub fn decode_record(index: usize, rec: &Record) -> (r: Result<Entry, DecodeError>)
    ensures
        match r {
            Ok(e) => decode_record_spec(index, record_model(rec@)) == Ok::<
                EntryModel,
                DecodeError,
            >(e@),
            Err(e) => decode_record_spec(index, record_model(rec@)) == Err::<
                EntryModel,
                DecodeError,
            >(e),
        },
{
    let word = required_text(index, rec, FieldName::Word)?;
    let category = optional_text(index, rec, FieldName::Category)?;
    let entry_type = required_text(index, rec, FieldName::EntryType)?;
    let tr = required_text(index, rec, FieldName::Translation)?;
    Ok(Entry { word, category, entry_type, tr })
}

/// Decodes every record, in order; fails with the fault of the first record
/// that does not decode.
pub fn decode_records(recs: &Vec<Record>) -> (r: Result<Vec<Entry>, DecodeError>)
    ensures
        match r {
            Ok(es) => decode_all(records_model(recs@)) == Ok::<Seq<EntryModel>, DecodeError>(
                entries_model(es@),
            ),
            Err(e) => decode_all(records_model(recs@)) == Err::<Seq<EntryModel>, DecodeError>(e),
        },
{
    let ghost m = records_model(recs@);
    let mut out: Vec<Entry> = Vec::new();
    let mut i: usize = 0;
    assert(entries_model(out@) =~= Seq::<EntryModel>::empty());
    while i < recs.len()
        invariant
            i <= recs@.len(),
            m == records_model(recs@),
            decode_prefix(m, i as nat) == Ok::<Seq<EntryModel>, DecodeError>(entries_model(out@)),
        decreases recs.len() - i,
    {
        let e = decode_record(i, &recs[i]);
        match e {
            Ok(entry) => {
                let ghost before = out@;
                out.push(entry);
                assert(entries_model(out@) =~= entries_model(before).push(entry@));
            },
            Err(err) => {
                proof {
                    lemma_prefix_error_stays(m, (i + 1) as nat, m.len());
                }
                return Err(err);
            },
        }
        i = i + 1;
    }
    Ok(out)
}

/// Once a prefix of the records fails, every longer prefix fails the same way.
proof fn lemma_prefix_error_stays(recs: Seq<RecordModel>, n: nat, k: nat)
    requires
        n <= k,
        decode_prefix(recs, n) is Err,
    ensures
        decode_prefix(recs, k) == decode_prefix(recs, n),
    decreases k - n,
{
    if n < k {
        lemma_prefix_error_stays(recs, n, (k - 1) as nat);
    }
}

/// The error type of serde_json, carried from the reader to the decoder.
#[verifier::external_type_specification]
#[verifier::external_body]
pub struct ExJsonError(serde_json::Error);

/// Relies on serde_json::Error::line: where the reader stopped.
pub assume_specification[ serde_json::Error::line ](e: &serde_json::Error) -> usize;

/// Relies on serde_json::Error::column: where the reader stopped.
pub assume_specification[ serde_json::Error::column ](e: &serde_json::Error) -> usize;

/// The records that a JSON text holds when it is an array of objects.
pub uninterp spec fn json_records(b: Seq<u8>) -> Option<Seq<RecordModel>>;

/// Relies on serde_json::from_slice into a `Vec` of `BTreeMap<String, Value>`:
/// reading a JSON array of objects, each object's keys with their values,
/// depends on the bytes alone. It fails on text that is no such array. The
/// values are reduced to what decoding looks at.
#[verifier::external_body]
fn read_records(bytes: &[u8]) -> (r: Result<Vec<Record>, serde_json::Error>)
    ensures
        r is Ok <==> json_records(bytes@) is Some,
        r is Ok ==> json_records(bytes@) == Some(records_model(r->Ok_0@)),
{
    serde_json::from_slice::<Vec<std::collections::BTreeMap<String, serde_json::Value>>>(bytes).map(
        |objects| objects.into_iter().map(|object| object.into_iter().map(|(k, v)| match v {
            serde_json::Value::Null => (k, FieldValue::Null),
            serde_json::Value::String(s) => (k, FieldValue::Text(s)),
            _ => (k, FieldValue::Other),
        }).collect()).collect(),
    )
}

/// What a dictionary text decodes to: the entries of its records, or the
/// first fault, or `None` when it is not a JSON array of objects.
pub open spec fn parse_spec(b: Seq<u8>) -> Option<Result<Seq<EntryModel>, DecodeError>> {
    match json_records(b) {
        None => None,
        Some(recs) => Some(decode_all(recs)),
    }
}

/// Decodes a whole dictionary file: a JSON array of entry objects. Nothing is
/// skipped: any record that does not decode fails the whole dictionary.
pub fn parse_dictionary(bytes: &[u8]) -> (r: Result<Vec<Entry>, DecodeError>)
    ensures
        match parse_spec(bytes@) {
            None => r matches Err(DecodeError::Malformed { .. }),
            Some(Ok(ms)) => r matches Ok(es) && entries_model(es@) == ms,
            Some(Err(e)) => r == Err::<Vec<Entry>, DecodeError>(e),
        },
{
    match read_records(bytes) {
        Err(e) => Err(DecodeError::Malformed { line: e.line(), column: e.column() }),
        Ok(recs) => decode_records(&recs),
    }
}

/// The record an entry is written as: its fields in the order word, category,
/// type, translation, with an absent category left out.
pub open spec fn record_of(e: EntryModel) -> RecordModel {
    let category = match e.category {
        Some(c) => seq![(key_of(FieldName::Category), FieldModel::Text(c))],
        None => Seq::empty(),
    };
    seq![(key_of(FieldName::Word), FieldModel::Text(e.word))] + category + seq![
        (key_of(FieldName::EntryType), FieldModel::Text(e.entry_type)),
        (key_of(FieldName::Translation), FieldModel::Text(e.tr)),
    ]
}

/// Writes an entry as a record of the dictionary format.
pub fn encode_entry(e: &Entry) -> (r: Record)
    ensures
        record_model(r@) == record_of(e@),
{
    let mut r: Record = Vec::new();
    r.push((FieldName::Word.key().to_owned(), FieldValue::Text(e.word.clone())));
    match &e.category {
        Some(c) => {
            r.push((FieldName::Category.key().to_owned(), FieldValue::Text(c.clone())));
        },
        None => {},
    }
    r.push((FieldName::EntryType.key().to_owned(), FieldValue::Text(e.entry_type.clone())));
    r.push((FieldName::Translation.key().to_owned(), FieldValue::Text(e.tr.clone())));
    assert(record_model(r@) =~= record_of(e@));
    r
}

/// Decoding the record an entry is written as gives that entry back, an
/// absent category staying absent.
pub proof fn lemma_decode_round_trip(index: usize, e: EntryModel)
    ensures
        decode_record_spec(index, record_of(e)) == Ok::<EntryModel, DecodeError>(e),
{
    let rec = record_of(e);
    let w = key_of(FieldName::Word);
    let c = key_of(FieldName::Category);
    let t = key_of(FieldName::EntryType);
    let tr = key_of(FieldName::Translation);
    assert(w != c && w != t && w != tr && c != t && c != tr && t != tr) by {
        assert(w[0] != t[0] && w[0] != tr[0] && c[0] != t[0] && c[0] != tr[0]);
        assert(w.len() != c.len() && t.len() != tr.len());
    }
    reveal_with_fuel(lookup_from, 5);
    match e.category {
        Some(cat) => {
            assert(rec[0] == (w, FieldModel::Text(e.word)));
            assert(rec[1] == (c, FieldModel::Text(cat)));
            assert(rec[2] == (t, FieldModel::Text(e.entry_type)));
            assert(rec[3] == (tr, FieldModel::Text(e.tr)));
            assert(rec.len() == 4);
        },
        None => {
            assert(rec[0] == (w, FieldModel::Text(e.word)));
            assert(rec[1] == (t, FieldModel::Text(e.entry_type)));
            assert(rec[2] == (tr, FieldModel::Text(e.tr)));
            assert(rec.len() == 3);
        },
    }
}

/// The records a list of entries is written as.
pub open spec fn records_of(es: Seq<EntryModel>) -> Seq<RecordModel> {
    es.map_values(|e: EntryModel| record_of(e))
}

/// Decoding the records of a list of entries gives the list back, in order.
pub proof fn lemma_decode_all_round_trip(es: Seq<EntryModel>)
    requires
        es.len() <= usize::MAX + 1,
    ensures
        decode_all(records_of(es)) == Ok::<
            Seq<EntryModel>,
            DecodeError,
        >(es),
{
    lemma_decode_prefix_round_trip(es, es.len());
    assert(es.subrange(0, es.len() as int) =~= es);
}

proof fn lemma_decode_prefix_round_trip(es: Seq<EntryModel>, n: nat)
    requires
        n <= es.len(),
        es.len() <= usize::MAX + 1,
    ensures
        decode_prefix(records_of(es), n) == Ok::<
            Seq<EntryModel>,
            DecodeError,
        >(es.subrange(0, n as int)),
    decreases n,
{
    if n == 0 {
        assert(es.subrange(0, 0) =~= Seq::<EntryModel>::empty());
    } else {
        lemma_decode_prefix_round_trip(es, (n - 1) as nat);
        lemma_decode_round_trip((n - 1) as usize, es[n - 1]);
        assert(es.subrange(0, n as int) =~= es.subrange(0, n - 1).push(es[n - 1]));
    }
}

} // verus!
