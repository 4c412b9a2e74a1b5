use record_store::{QueryReq, Record};

#[test]
fn default_record_is_blank() {
    let r = Record::default();
    assert_eq!(r.id, 0);
    assert_eq!(r.content, "");
    assert_eq!(r.data_type, "");
    assert_eq!(r.md5, "");
    assert_eq!(r.create_time, 0);
    assert!(!r.is_favorite);
    assert_eq!(r.content_highlight, None);
}

#[test]
fn default_query_has_no_filter() {
    let q = QueryReq::default();
    assert_eq!(q.key, None);
    assert_eq!(q.limit, None);
    assert_eq!(q.is_favorite, None);
}
