//! The record, the search request and the error kinds.

use vstd::prelude::*;

verus! {

/// What the table keeps of a record: its six columns.
pub struct Row {
    pub id: int,
    pub content: Seq<char>,
    pub data_type: Seq<char>,
    pub md5: Seq<char>,
    pub create_time: int,
    pub is_favorite: bool,
}

/// A record as a value: its row and, in search results, the marked content.
pub struct RecordView {
    pub row: Row,
    pub content_highlight: Option<Seq<char>>,
}

/// One entry of the history.
#[derive(Debug)]
pub struct Record {
    /// Assigned by the store; grows with every insertion.
    pub id: u64,
    pub content: String,
    /// `"text"` or `"image"`.
    pub data_type: String,
    /// Hex digest of `content`; the key by which duplicates are found.
    pub md5: String,
    /// Milliseconds since the epoch of the last insertion of this content.
    pub create_time: u64,
    pub is_favorite: bool,
    /// Filled in search results only.
    pub content_highlight: Option<String>,
}

impl Record {
    pub open spec fn row(&self) -> Row {
        Row {
            id: self.id as int,
            content: self.content@,
            data_type: self.data_type@,
            md5: self.md5@,
            create_time: self.create_time as int,
            is_favorite: self.is_favorite,
        }
    }
}

impl View for Record {
    type V = RecordView;

    open spec fn view(&self) -> RecordView {
        RecordView {
            row: self.row(),
            content_highlight: match self.content_highlight {
                Some(s) => Some(s@),
                None => None,
            },
        }
    }
}

impl Default for Record {
    fn default() -> (r: Record)
        ensures
            r.id == 0,
            r.content@.len() == 0,
            r.data_type@.len() == 0,
            r.md5@.len() == 0,
            r.create_time == 0,
            !r.is_favorite,
            r.content_highlight is None,
    {
        Record {
            id: 0,
            content: String::new(),
            data_type: String::new(),
            md5: String::new(),
            create_time: 0,
            is_favorite: false,
            content_highlight: None,
        }
    }
}

impl PartialEq for Record {
    fn eq(&self, other: &Record) -> (res: bool) {
        let same_highlight = match &self.content_highlight {
            Some(a) => match &other.content_highlight {
                Some(b) => *a == *b,
                None => false,
            },
            None => other.content_highlight.is_none(),
        };
        let same_row = self.id == other.id && self.content == other.content && self.data_type
            == other.data_type && self.md5 == other.md5 && self.create_time == other.create_time
            && self.is_favorite == other.is_favorite;
        proof {
            assert(same_row == (self.row() == other.row()));
            assert(same_highlight == (self@.content_highlight == other@.content_highlight));
        }
        same_row && same_highlight
    }
}

impl vstd::std_specs::cmp::PartialEqSpecImpl for Record {
    open spec fn obeys_eq_spec() -> bool {
        true
    }

    open spec fn eq_spec(&self, other: &Record) -> bool {
        self@ == other@
    }
}

/// A search: every field narrows the result, none is required.
#[derive(Debug)]
pub struct QueryReq {
    /// Text that the content must contain.
    pub key: Option<String>,
    /// Most records to return; 300 where absent.
    pub limit: Option<usize>,
    /// Return only favorites (`true`) or only the others (`false`).
    pub is_favorite: Option<bool>,
}

impl Default for QueryReq {
    fn default() -> (q: QueryReq)
        ensures
            q.key is None,
            q.limit is None,
            q.is_favorite is None,
    {
        QueryReq { key: None, limit: None, is_favorite: None }
    }
}

/// Why an operation of the store failed.
#[derive(Debug, Clone, Copy, PartialEq, Eq, Structural)]
pub enum StoreError {
    /// The database could not be opened or its table not be created.
    Init,
    /// The engine refused a statement that changes the table.
    Write,
    /// The engine refused a query.
    Read,
    /// No record has the id or the hash that was asked for.
    NotFound,
}

} // verus!

verus! {

/// The rows of a list of records.
pub open spec fn rows_of(v: Seq<Record>) -> Seq<Row> {
    v.map_values(|r: Record| r.row())
}

/// No record of the list carries marked content.
pub open spec fn unmarked(v: Seq<Record>) -> bool {
    forall|i: int| 0 <= i < v.len() ==> (#[trigger] v[i]).content_highlight is None
}

/// A record as the table holds it, without marked content.
pub fn stored_record(
    id: u64,
    content: String,
    data_type: String,
    md5: String,
    create_time: u64,
    is_favorite: bool,
) -> (r: Record)
    ensures
        r.id == id,
        r.content == content,
        r.data_type == data_type,
        r.md5 == md5,
        r.create_time == create_time,
        r.is_favorite == is_favorite,
        r.content_highlight is None,
{
    Record { id, content, data_type, md5, create_time, is_favorite, content_highlight: None }
}

} // verus!
