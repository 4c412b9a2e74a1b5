use record_store::{highlight, QueryReq, Record, SqliteDB};

fn memory_store() -> SqliteDB {
    let db = SqliteDB::new(":memory:").unwrap();
    db.create_table().unwrap();
    db
}

fn record(content: &str, data_type: &str, is_favorite: bool) -> Record {
    Record {
        content: content.to_string(),
        data_type: data_type.to_string(),
        is_favorite,
        ..Default::default()
    }
}

fn key(k: &str) -> QueryReq {
    QueryReq { key: Some(k.to_string()), ..Default::default() }
}

#[test]
fn example_of_two_contents_and_a_search() {
    let db = memory_store();
    db.insert_if_not_exist_at(record("abc", "text", false), 100).unwrap();
    let all = db.find_all().unwrap();
    assert_eq!(all.len(), 1);
    assert_eq!(all[0].id, 1);
    assert_eq!(all[0].md5, "900150983cd24fb0d6963f7d28e17f72");

    db.insert_if_not_exist_at(record("abc", "text", false), 200).unwrap();
    let all = db.find_all().unwrap();
    assert_eq!(all.len(), 1);
    assert_eq!(all[0].id, 1);
    assert_eq!(all[0].create_time, 200);

    db.insert_if_not_exist_at(record("xyz", "text", false), 300).unwrap();
    let all = db.find_all().unwrap();
    assert_eq!(all.len(), 2);
    assert_eq!(all[0].id, 2);
    assert_eq!(all[0].md5, "d16fb36f0911f878998c136191af705e");

    let hits = db.find_by_key(key("ab")).unwrap();
    assert_eq!(hits.len(), 1);
    assert_eq!(hits[0].id, 1);
    assert_eq!(hits[0].content, "abc");
    assert_eq!(hits[0].data_type, "text");
    assert_eq!(hits[0].create_time, 200);
    assert_eq!(hits[0].content_highlight, Some("<b>ab</b>c".to_string()));
}

#[test]
fn search_without_key_leaves_the_highlight_out() {
    let db = memory_store();
    db.insert_if_not_exist_at(record("abc", "text", false), 1).unwrap();
    let hits = db.find_by_key(QueryReq::default()).unwrap();
    assert_eq!(hits.len(), 1);
    assert_eq!(hits[0].content_highlight, None);
}

#[test]
fn search_never_returns_images() {
    let db = memory_store();
    db.insert_if_not_exist_at(record("picture of abc", "image", true), 1).unwrap();
    db.insert_if_not_exist_at(record("abc", "text", true), 2).unwrap();
    assert_eq!(db.find_by_key(QueryReq::default()).unwrap().len(), 1);
    let hits = db.find_by_key(key("abc")).unwrap();
    assert_eq!(hits.len(), 1);
    assert_eq!(hits[0].id, 2);
    let favorites = QueryReq { is_favorite: Some(true), ..Default::default() };
    assert_eq!(db.find_by_key(favorites).unwrap().len(), 1);
}

#[test]
fn search_by_favorite_flag() {
    let db = memory_store();
    db.insert_if_not_exist_at(record("one", "text", true), 1).unwrap();
    db.insert_if_not_exist_at(record("two", "text", false), 2).unwrap();
    db.insert_if_not_exist_at(record("three", "text", true), 3).unwrap();
    db.insert_if_not_exist_at(record("four", "image", true), 4).unwrap();

    let yes = db.find_by_key(QueryReq { is_favorite: Some(true), ..Default::default() }).unwrap();
    assert_eq!(yes.iter().map(|r| r.id).collect::<Vec<u64>>(), vec![3, 1]);
    assert!(yes.iter().all(|r| r.is_favorite && r.data_type == "text"));

    let no = db.find_by_key(QueryReq { is_favorite: Some(false), ..Default::default() }).unwrap();
    assert_eq!(no.iter().map(|r| r.id).collect::<Vec<u64>>(), vec![2]);

    let capped = db
        .find_by_key(QueryReq { is_favorite: Some(true), limit: Some(1), key: None })
        .unwrap();
    assert_eq!(capped.iter().map(|r| r.id).collect::<Vec<u64>>(), vec![3]);

    let both = db
        .find_by_key(QueryReq { is_favorite: Some(true), limit: None, key: Some("o".to_string()) })
        .unwrap();
    assert_eq!(both.iter().map(|r| r.id).collect::<Vec<u64>>(), vec![1]);
    assert_eq!(both[0].content_highlight, Some("<b>o</b>ne".to_string()));

    db.mark_favorite(2).unwrap();
    let yes = db.find_by_key(QueryReq { is_favorite: Some(true), ..Default::default() }).unwrap();
    assert_eq!(yes.iter().map(|r| r.id).collect::<Vec<u64>>(), vec![3, 2, 1]);
}

#[test]
fn search_orders_by_time_and_respects_the_limit() {
    let db = memory_store();
    db.insert_if_not_exist_at(record("a1", "text", false), 50).unwrap();
    db.insert_if_not_exist_at(record("a2", "text", false), 70).unwrap();
    db.insert_if_not_exist_at(record("a3", "text", false), 60).unwrap();
    db.insert_if_not_exist_at(record("b4", "text", false), 80).unwrap();
    let hits = db.find_by_key(QueryReq { key: Some("a".to_string()), limit: Some(2), is_favorite: None }).unwrap();
    assert_eq!(hits.iter().map(|r| r.id).collect::<Vec<u64>>(), vec![2, 3]);
    let none = db.find_by_key(QueryReq { key: None, limit: Some(0), is_favorite: None }).unwrap();
    assert_eq!(none.len(), 0);
    let all = db.find_by_key(QueryReq { key: None, limit: Some(usize::MAX), is_favorite: None }).unwrap();
    assert_eq!(all.iter().map(|r| r.id).collect::<Vec<u64>>(), vec![4, 2, 3, 1]);
}

#[test]
fn search_returns_300_by_default() {
    let db = memory_store();
    for i in 1..=305u64 {
        db.insert_record_at(record(&format!("entry {}", i), "text", false), i).unwrap();
    }
    let hits = db.find_by_key(QueryReq::default()).unwrap();
    assert_eq!(hits.len(), 300);
    assert_eq!(hits[0].id, 305);
    assert_eq!(hits[299].id, 6);
    let more = db.find_by_key(QueryReq { limit: Some(301), ..Default::default() }).unwrap();
    assert_eq!(more.len(), 301);
}

#[test]
fn search_matches_as_like_does_and_marks_exact_occurrences() {
    let db = memory_store();
    db.insert_if_not_exist_at(record("Hello hello", "text", false), 1).unwrap();
    db.insert_if_not_exist_at(record("100% sure", "text", false), 2).unwrap();
    // LIKE ignores the case of ASCII letters; the marks do not
    let hits = db.find_by_key(key("hello")).unwrap();
    assert_eq!(hits.len(), 1);
    assert_eq!(hits[0].content_highlight, Some("Hello <b>hello</b>".to_string()));
    let hits = db.find_by_key(key("HELLO")).unwrap();
    assert_eq!(hits.len(), 1);
    assert_eq!(hits[0].content_highlight, Some("Hello hello".to_string()));
    // `%` in a key is a wildcard to LIKE
    let hits = db.find_by_key(key("%")).unwrap();
    assert_eq!(hits.len(), 2);
    assert_eq!(hits[0].content_highlight, Some("100<b>%</b> sure".to_string()));
    let hits = db.find_by_key(key("absent")).unwrap();
    assert_eq!(hits.len(), 0);
}

#[test]
fn highlight_marks_every_occurrence() {
    assert_eq!(highlight("ab", "abc"), "<b>ab</b>c");
    assert_eq!(highlight("ab", "xxabyyabab"), "xx<b>ab</b>yy<b>ab</b><b>ab</b>");
    assert_eq!(highlight("abc", "abc"), "<b>abc</b>");
    assert_eq!(highlight("c", "abc"), "ab<b>c</b>");
}

#[test]
fn highlight_takes_occurrences_from_the_left_without_overlap() {
    assert_eq!(highlight("aa", "aaa"), "<b>aa</b>a");
    assert_eq!(highlight("aba", "ababa"), "<b>aba</b>ba");
    assert_eq!(highlight("aab", "aaab"), "a<b>aab</b>");
}

#[test]
fn highlight_without_occurrence_returns_the_text() {
    assert_eq!(highlight("x", "abc"), "abc");
    assert_eq!(highlight("abcd", "abc"), "abc");
    assert_eq!(highlight("AB", "abc"), "abc");
    assert_eq!(highlight("ab", ""), "");
}

#[test]
fn highlight_with_empty_key_returns_the_text() {
    assert_eq!(highlight("", "abc"), "abc");
    assert_eq!(highlight("", ""), "");
}

#[test]
fn highlight_counts_characters_not_bytes() {
    assert_eq!(highlight("é", "café é"), "caf<b>é</b> <b>é</b>");
    assert_eq!(highlight("日本", "日本語の日本"), "<b>日本</b>語の<b>日本</b>");
}

#[test]
fn records_compare_by_all_fields() {
    let a = record("abc", "text", false);
    let mut b = record("abc", "text", false);
    assert!(a == b);
    b.content_highlight = Some("abc".to_string());
    assert!(a != b);
    b.content_highlight = None;
    b.create_time = 1;
    assert!(a != b);
}
