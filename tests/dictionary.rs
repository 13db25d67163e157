use sozluk::codec::{
    decode_record, decode_records, encode_entry, parse_dictionary, DecodeError, FieldName,
    FieldValue, Record,
};
use sozluk::entry::Entry;
use sozluk::load::{load_from_bytes, on_chunk, plan_load, FetchAction, LoadError, LoadStep};
use sozluk::lookup::search_word;
use sozluk::render::{answer, render_entry, render_not_found, render_results};
use sozluk::text::{eq_ignore_ascii_case, same_text};

fn entry(word: &str, category: Option<&str>, entry_type: &str, tr: &str) -> Entry {
    Entry {
        word: word.to_string(),
        category: category.map(|c| c.to_string()),
        entry_type: entry_type.to_string(),
        tr: tr.to_string(),
    }
}

fn record_to_json(rec: &Record) -> serde_json::Value {
    let mut object = serde_json::Map::new();
    for (k, v) in rec {
        let value = match v {
            FieldValue::Null => serde_json::Value::Null,
            FieldValue::Text(s) => serde_json::Value::String(s.clone()),
            FieldValue::Other => serde_json::Value::Bool(true),
        };
        object.insert(k.clone(), value);
    }
    serde_json::Value::Object(object)
}

fn dictionary_text(entries: &[Entry]) -> Vec<u8> {
    let array: Vec<serde_json::Value> =
        entries.iter().map(|e| record_to_json(&encode_entry(e))).collect();
    serde_json::to_vec(&serde_json::Value::Array(array)).unwrap()
}

#[test]
fn decode_round_trip_keeps_entry() {
    let with = entry("bank", Some("finance"), "noun", "banka");
    let without = entry("run", None, "verb", "koşmak");
    assert_eq!(decode_record(0, &encode_entry(&with)), Ok(with.clone()));
    assert_eq!(decode_record(3, &encode_entry(&without)), Ok(without.clone()));
    let encoded = encode_entry(&without);
    assert_eq!(encoded.len(), 3);
    assert!(encoded.iter().all(|(k, _)| k != "category"));
}

#[test]
fn decode_round_trip_through_json_text() {
    let entries = vec![
        entry("bank", Some("finance"), "noun", "banka"),
        entry("run", None, "verb", "koşmak"),
        entry("empty", Some(""), "adj", "boş"),
    ];
    let bytes = dictionary_text(&entries);
    let decoded = parse_dictionary(&bytes).unwrap();
    assert_eq!(decoded, entries);
    assert_eq!(decoded[1].category, None);
    assert_eq!(decoded[2].category, Some(String::new()));
}

#[test]
fn search_ignores_ascii_case() {
    let dict = vec![entry("Run", None, "verb", "koşmak")];
    let lower = search_word(&dict, "run");
    let upper = search_word(&dict, "RUN");
    let same = search_word(&dict, "Run");
    assert_eq!(lower.len(), 1);
    assert_eq!(lower, upper);
    assert_eq!(lower, same);
    assert_eq!(lower[0], &dict[0]);
    assert!(search_word(&dict, "running").is_empty());
}

#[test]
fn search_returns_all_homographs_in_order() {
    let dict = vec![
        entry("bank", Some("finance"), "noun", "banka"),
        entry("river", None, "noun", "nehir"),
        entry("bank", None, "verb", "bankaya yatırmak"),
    ];
    for query in ["bank", "Bank"] {
        let found = search_word(&dict, query);
        assert_eq!(found.len(), 2);
        assert_eq!(found[0], &dict[0]);
        assert_eq!(found[1], &dict[2]);
    }
}

#[test]
fn search_does_not_trim_or_fold_other_letters() {
    let dict = vec![entry("çay", None, "noun", "tea"), entry("", None, "x", "y")];
    assert!(search_word(&dict, " çay").is_empty());
    assert!(search_word(&dict, "ÇAY").is_empty());
    assert_eq!(search_word(&dict, "çAY").len(), 1);
    assert_eq!(search_word(&dict, "").len(), 1);
    assert!(search_word(&[], "çay").is_empty());
}

#[test]
fn text_comparisons() {
    assert!(eq_ignore_ascii_case("HeLLo", "hello"));
    assert!(!eq_ignore_ascii_case("hello", "hell"));
    assert!(!eq_ignore_ascii_case("İ", "i"));
    assert!(!eq_ignore_ascii_case("[", "{"));
    assert!(same_text("word", "word"));
    assert!(!same_text("word", "Word"));
    assert!(!same_text("tr", "type"));
}

#[test]
fn missing_category_renders_placeholder() {
    let e = entry("run", None, "verb", "koşmak");
    assert_eq!(render_entry(&e), "run (Belirtilmemiş) [verb]: koşmak");
    let f = entry("bank", Some("finance"), "noun", "banka");
    assert_eq!(render_entry(&f), "bank (finance) [noun]: banka");
}

#[test]
fn not_found_names_the_query() {
    let dict = vec![entry("cat", None, "noun", "kedi")];
    assert_eq!(answer(&dict, "dog"), vec!["dog kelimesi bulunamadı.".to_string()]);
    assert_eq!(render_not_found("dog"), "dog kelimesi bulunamadı.");
    assert_eq!(answer(&dict, "CAT"), vec!["cat (Belirtilmemiş) [noun]: kedi".to_string()]);
}

#[test]
fn render_results_one_line_per_match() {
    let a = entry("bank", Some("finance"), "noun", "banka");
    let b = entry("bank", None, "verb", "yatırmak");
    let lines = render_results("bank", &[&a, &b]);
    assert_eq!(lines, vec![
        "bank (finance) [noun]: banka".to_string(),
        "bank (Belirtilmemiş) [verb]: yatırmak".to_string(),
    ]);
    assert_eq!(render_results("x", &[]), vec!["x kelimesi bulunamadı.".to_string()]);
}

#[test]
fn missing_translation_fails_to_load() {
    let text = br#"[{"word":"cat","type":"noun","tr":"kedi"},{"word":"dog","type":"noun"}]"#;
    assert_eq!(
        parse_dictionary(text),
        Err(DecodeError::MissingField { record: 1, field: FieldName::Translation })
    );
    assert_eq!(
        load_from_bytes(text),
        Err(LoadError::Decode(DecodeError::MissingField { record: 1, field: FieldName::Translation }))
    );
}

#[test]
fn decode_reads_type_key_and_optional_category() {
    let text = br#"[{"word":"a","type":"t1","tr":"x"},{"word":"b","category":null,"type":"t2","tr":"y"},{"tr":"z","category":"c","type":"t3","word":"C"}]"#;
    let es = parse_dictionary(text).unwrap();
    assert_eq!(es, vec![
        entry("a", None, "t1", "x"),
        entry("b", None, "t2", "y"),
        entry("C", Some("c"), "t3", "z"),
    ]);
    let renamed = br#"[{"word":"a","entry_type":"t1","tr":"x"}]"#;
    assert_eq!(
        parse_dictionary(renamed),
        Err(DecodeError::MissingField { record: 0, field: FieldName::EntryType })
    );
}

#[test]
fn decode_errors_name_record_and_field() {
    let word_null = br#"[{"word":null,"type":"t","tr":"x"}]"#;
    assert_eq!(
        parse_dictionary(word_null),
        Err(DecodeError::NotText { record: 0, field: FieldName::Word })
    );
    let category_number = br#"[{"word":"a","type":"t","tr":"x"},{"word":"b","category":5,"type":"t","tr":"x"}]"#;
    assert_eq!(
        parse_dictionary(category_number),
        Err(DecodeError::NotText { record: 1, field: FieldName::Category })
    );
    let no_word = br#"[{"type":"t","tr":"x"}]"#;
    assert_eq!(
        parse_dictionary(no_word),
        Err(DecodeError::MissingField { record: 0, field: FieldName::Word })
    );
}

#[test]
fn malformed_text_is_reported() {
    assert!(matches!(parse_dictionary(b"[{\"word\":"), Err(DecodeError::Malformed { .. })));
    assert!(matches!(parse_dictionary(b"{}"), Err(DecodeError::Malformed { .. })));
    assert!(matches!(parse_dictionary(b"[1, 2]"), Err(DecodeError::Malformed { .. })));
    match parse_dictionary(b"[\n\n  oops]") {
        Err(DecodeError::Malformed { line, .. }) => assert_eq!(line, 3),
        other => panic!("unexpected {:?}", other),
    }
    assert!(matches!(load_from_bytes(b""), Err(LoadError::Decode(DecodeError::Malformed { .. }))));
    assert_eq!(parse_dictionary(b"[]"), Ok(vec![]));
}

#[test]
fn decode_records_stops_at_first_fault() {
    let good = encode_entry(&entry("a", None, "t", "x"));
    let bad: Record = vec![("word".to_string(), FieldValue::Other)];
    let also_bad: Record = vec![];
    assert_eq!(
        decode_records(&vec![good.clone(), bad, also_bad]),
        Err(DecodeError::NotText { record: 1, field: FieldName::Word })
    );
    assert_eq!(decode_records(&vec![good.clone(), good]).unwrap().len(), 2);
}

#[test]
fn existing_file_is_never_fetched() {
    assert_eq!(plan_load(true, true), LoadStep::ReadLocal);
    assert_eq!(plan_load(true, false), LoadStep::ReadLocal);
    assert_eq!(plan_load(false, true), LoadStep::Fetch);
    assert_eq!(plan_load(false, false), LoadStep::NotFound);
}

#[test]
fn download_steps() {
    assert_eq!(on_chunk(5, 0), FetchAction::Finish);
    assert_eq!(on_chunk(5, 10), FetchAction::Write { len: 10, position: 15 });
    assert_eq!(on_chunk(u64::MAX - 1, 8192), FetchAction::Write { len: 8192, position: u64::MAX });
}

#[test]
fn field_keys_are_the_file_format() {
    assert_eq!(FieldName::Word.key(), "word");
    assert_eq!(FieldName::Category.key(), "category");
    assert_eq!(FieldName::EntryType.key(), "type");
    assert_eq!(FieldName::Translation.key(), "tr");
}
