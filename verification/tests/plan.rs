use record_store::clock::stamp_of;
use record_store::plan::{
    eviction_due, found_or_missing, hash_counted, recording_for, toggle_for, with_hash,
    with_hash_asked, Recording,
};
use record_store::store::{contains_pattern, mark_all, search_cap};
use record_store::{Record, SqliteDB, StoreError};

fn memory_store() -> SqliteDB {
    let db = SqliteDB::new(":memory:").unwrap();
    db.create_table().unwrap();
    db
}

fn text(content: &str) -> Record {
    Record {
        content: content.to_string(),
        data_type: "text".to_string(),
        ..Default::default()
    }
}

fn stored(id: u64, content: &str, is_favorite: bool) -> Record {
    Record {
        id,
        content: content.to_string(),
        data_type: "text".to_string(),
        is_favorite,
        ..Default::default()
    }
}

#[test]
fn a_record_found_is_touched() {
    let plan = recording_for(Ok(stored(7, "abc", false)), text("abc"));
    assert!(matches!(plan, Recording::Touch(7)));
}

#[test]
fn a_record_not_found_is_inserted() {
    let plan = recording_for(Err(StoreError::NotFound), text("abc"));
    match plan {
        Recording::Insert(r) => {
            assert_eq!(r.content, "abc");
            assert_eq!(r.data_type, "text");
        }
        other => panic!("expected an insertion, got {:?}", other),
    }
}

#[test]
fn a_failed_lookup_fails_the_recording() {
    let plan = recording_for(Err(StoreError::Read), text("abc"));
    assert!(matches!(plan, Recording::Fail(StoreError::Read)));
    let plan = recording_for(Err(StoreError::Write), text("abc"));
    assert!(matches!(plan, Recording::Fail(StoreError::Write)));
}

#[test]
fn a_failed_lookup_inserts_nothing() {
    let db = memory_store();
    let res = db.record_after_lookup(Err(StoreError::Read), text("abc"), 5);
    assert_eq!(res, Err(StoreError::Read));
    assert_eq!(db.find_all().unwrap().len(), 0);
}

#[test]
fn recording_after_a_lookup_touches_or_inserts() {
    let db = memory_store();
    assert_eq!(db.record_after_lookup(Err(StoreError::NotFound), text("abc"), 5), Ok(()));
    let found = db.find_by_id(1).unwrap();
    assert_eq!(found.content, "abc");
    assert_eq!(found.create_time, 5);
    assert_eq!(db.record_after_lookup(Ok(found), text("abc"), 9), Ok(()));
    let all = db.find_all().unwrap();
    assert_eq!(all.len(), 1);
    assert_eq!(all[0].create_time, 9);
}

#[test]
fn the_flag_to_set_is_the_opposite_of_the_one_found() {
    assert_eq!(toggle_for(Ok(stored(1, "abc", false))), Ok(true));
    assert_eq!(toggle_for(Ok(stored(1, "abc", true))), Ok(false));
}

#[test]
fn a_failed_lookup_fails_the_toggle() {
    assert_eq!(toggle_for(Err(StoreError::NotFound)), Err(StoreError::NotFound));
    assert_eq!(toggle_for(Err(StoreError::Read)), Err(StoreError::Read));
}

#[test]
fn toggle_after_a_lookup() {
    let db = memory_store();
    db.insert_if_not_exist_at(text("abc"), 1).unwrap();
    assert_eq!(db.toggle_after_lookup(1, Err(StoreError::Read)), Err(StoreError::Read));
    assert_eq!(db.toggle_after_lookup(1, Err(StoreError::NotFound)), Err(StoreError::NotFound));
    assert!(!db.find_by_id(1).unwrap().is_favorite);
    let found = db.find_by_id(1).unwrap();
    assert_eq!(db.toggle_after_lookup(1, Ok(found)), Ok(()));
    assert!(db.find_by_id(1).unwrap().is_favorite);
}

#[test]
fn eviction_is_due_from_the_limit_plus_fifty() {
    assert!(!eviction_due(0, 0));
    assert!(!eviction_due(49, 0));
    assert!(eviction_due(50, 0));
    assert!(!eviction_due(59, 10));
    assert!(eviction_due(60, 10));
    assert!(eviction_due(61, 10));
    assert!(!eviction_due(u64::MAX, usize::MAX));
    assert!(eviction_due(u64::MAX, usize::MAX - 50));
    assert!(!eviction_due(10, 100));
}

#[test]
fn eviction_after_a_count() {
    let db = memory_store();
    for i in 1..=5u64 {
        db.insert_record_at(text(&format!("entry {}", i)), i).unwrap();
    }
    assert_eq!(db.evict_after_count(51, 2), Ok(()));
    assert_eq!(db.find_all().unwrap().len(), 5);
    assert_eq!(db.evict_after_count(52, 2), Ok(()));
    let left: Vec<u64> = db.find_all().unwrap().iter().map(|r| r.id).collect();
    assert_eq!(left, vec![5, 4]);
}

#[test]
fn a_hash_is_known_from_one_row_on() {
    assert!(!hash_counted(0));
    assert!(hash_counted(1));
    assert!(hash_counted(2));
}

#[test]
fn with_hash_replaces_only_the_hash() {
    let r = Record {
        id: 3,
        content: "123456".to_string(),
        data_type: "text".to_string(),
        md5: "stale".to_string(),
        create_time: 8,
        is_favorite: true,
        content_highlight: Some("x".to_string()),
    };
    let hashed = with_hash(r);
    assert_eq!(hashed.md5, "e10adc3949ba59abbe56e057f20f883e");
    assert_eq!(hashed.id, 3);
    assert_eq!(hashed.content, "123456");
    assert_eq!(hashed.data_type, "text");
    assert_eq!(hashed.create_time, 8);
    assert!(hashed.is_favorite);
    assert_eq!(hashed.content_highlight, Some("x".to_string()));
    assert_eq!(with_hash(Record::default()).md5, "d41d8cd98f00b204e9800998ecf8427e");
}

#[test]
fn an_answer_with_a_row_is_that_record() {
    let r = found_or_missing(Ok(Some(stored(4, "abc", true)))).unwrap();
    assert_eq!(r.id, 4);
    assert_eq!(r.content, "abc");
    assert!(r.is_favorite);
}

#[test]
fn an_answer_without_a_row_is_not_found() {
    assert_eq!(found_or_missing(Ok(None)).err(), Some(StoreError::NotFound));
}

#[test]
fn a_failed_query_is_a_read_error() {
    let failed = found_or_missing(Err(rusqlite::Error::InvalidQuery));
    assert_eq!(failed.err(), Some(StoreError::Read));
    let failed = found_or_missing(Err(rusqlite::Error::QueryReturnedNoRows));
    assert_eq!(failed.err(), Some(StoreError::Read));
}

#[test]
fn a_record_with_the_hash_asked_for_passes() {
    let mut r = stored(4, "abc", false);
    r.md5 = "900150983cd24fb0d6963f7d28e17f72".to_string();
    let res = with_hash_asked(Ok(r), "900150983cd24fb0d6963f7d28e17f72");
    assert_eq!(res.unwrap().id, 4);
}

#[test]
fn a_record_with_another_hash_is_a_read_error() {
    let mut r = stored(4, "abc", false);
    r.md5 = "900150983CD24FB0D6963F7D28E17F72".to_string();
    let res = with_hash_asked(Ok(r), "900150983cd24fb0d6963f7d28e17f72");
    assert_eq!(res.err(), Some(StoreError::Read));
}

#[test]
fn a_lookup_without_record_stays_as_it_is() {
    assert_eq!(with_hash_asked(Err(StoreError::NotFound), "x").err(), Some(StoreError::NotFound));
    assert_eq!(with_hash_asked(Err(StoreError::Read), "x").err(), Some(StoreError::Read));
}

#[test]
fn a_clock_before_the_epoch_stamps_zero() {
    assert_eq!(stamp_of(-1), 0);
    assert_eq!(stamp_of(i64::MIN), 0);
    assert_eq!(stamp_of(0), 0);
    assert_eq!(stamp_of(1), 1);
    assert_eq!(stamp_of(1_700_000_000_000), 1_700_000_000_000);
    assert_eq!(stamp_of(i64::MAX), 9_223_372_036_854_775_807);
}

#[test]
fn the_search_limit_is_300_where_none_is_given() {
    assert_eq!(search_cap(None), 300);
    assert_eq!(search_cap(Some(0)), 0);
    assert_eq!(search_cap(Some(7)), 7);
    assert_eq!(search_cap(Some(usize::MAX)), i64::MAX);
}

#[test]
fn the_pattern_is_the_key_between_percent_signs() {
    assert_eq!(contains_pattern("ab"), "%ab%");
    assert_eq!(contains_pattern(""), "%%");
    assert_eq!(contains_pattern("50%"), "%50%%");
}

#[test]
fn hits_are_text_with_the_key_marked() {
    let mut image = stored(2, "xaby", true);
    image.data_type = "TEXT".to_string();
    image.md5 = "m".to_string();
    image.create_time = 9;
    let hits = mark_all(vec![stored(1, "abc", false), image], &Some("ab".to_string()));
    assert_eq!(hits.len(), 2);
    assert_eq!(hits[0].id, 1);
    assert_eq!(hits[0].data_type, "text");
    assert_eq!(hits[0].content_highlight, Some("<b>ab</b>c".to_string()));
    assert_eq!(hits[1].id, 2);
    assert_eq!(hits[1].content, "xaby");
    assert_eq!(hits[1].data_type, "text");
    assert_eq!(hits[1].md5, "m");
    assert_eq!(hits[1].create_time, 9);
    assert!(hits[1].is_favorite);
    assert_eq!(hits[1].content_highlight, Some("x<b>ab</b>y".to_string()));
}

#[test]
fn hits_without_key_carry_no_marks() {
    let hits = mark_all(vec![stored(1, "abc", false)], &None);
    assert_eq!(hits.len(), 1);
    assert_eq!(hits[0].content, "abc");
    assert_eq!(hits[0].content_highlight, None);
    assert_eq!(mark_all(vec![], &None).len(), 0);
}

#[test]
fn the_engine_is_the_one_built_with_the_crate() {
    assert_eq!(rusqlite::version(), "3.53.2");
}
