//! The record store: one SQLite connection and the operations on its table.
//!
//! An operation asks the database, decides on the answer and tells the
//! database what to do. The database may refuse any statement, so no
//! operation promises to succeed; each says which errors it gives, and what
//! holds of what it returns.

use crate::clock::now_millis;
use crate::digest::content_hash;
use crate::engine;
use crate::engine::sql_like;
use crate::highlight::{highlight, highlighted};
use crate::plan::{
    eviction_due, found_or_missing, hash_counted, recording_for, recording_plan, toggle_for,
    toggle_plan, with_hash, with_hash_asked, Recording,
};
use crate::record::{rows_of, unmarked, QueryReq, Record, StoreError};
use crate::table::{newest_first, EVICTION_SLACK};
use rusqlite::Connection;
use vstd::prelude::*;

verus! {

/// SQLite's flag to open a database for reading and writing.
pub const OPEN_READ_WRITE: i32 = 0x2;

/// The greatest number of records that a search returns where the request
/// names none.
pub const DEFAULT_SEARCH_LIMIT: u64 = 300;

/// The data type of the records that a search looks at: `text`.
pub open spec fn text_type() -> Seq<char> {
    seq!['t', 'e', 'x', 't']
}

/// The pattern that a search hands to `LIKE`: the key between two `%`.
pub open spec fn search_pattern(key: Option<String>) -> Option<Seq<char>> {
    match key {
        Some(k) => Some(seq!['%'] + k@ + seq!['%']),
        None => None,
    }
}

/// The greatest number of records that a search returns: the limit of the
/// request, 300 where it names none, and no more than SQLite can count.
pub open spec fn search_limit(limit: Option<usize>) -> nat {
    let asked = match limit {
        Some(l) => l as nat,
        None => DEFAULT_SEARCH_LIMIT as nat,
    };
    if asked > i64::MAX {
        i64::MAX as nat
    } else {
        asked
    }
}

/// Every record of the list carries its content with `key` marked, or
/// nothing where there is no key.
pub open spec fn marked_for(v: Seq<Record>, key: Option<String>) -> bool {
    forall|i: int|
        0 <= i < v.len() ==> match (key, (#[trigger] v[i]).content_highlight) {
            (Some(k), Some(h)) => h@ == highlighted(k@, v[i].content@),
            (None, None) => true,
            _ => false,
        }
}

/// A record passes a search where it is text, its content passes the pattern
/// and its favorite flag is the one asked for, as far as these are given.
pub open spec fn passes(r: Record, key: Option<String>, favorite: Option<bool>) -> bool {
    &&& r.data_type@ == text_type()
    &&& search_pattern(key) matches Some(p) ==> sql_like(p, r.content@)
    &&& favorite matches Some(f) ==> r.is_favorite == f
}

/// The limit of a search as SQLite takes it.
pub fn search_cap(limit: Option<usize>) -> (cap: i64)
    ensures
        cap == search_limit(limit),
{
    let asked: u64 = match limit {
        Some(l) => l as u64,
        None => DEFAULT_SEARCH_LIMIT,
    };
    if asked > i64::MAX as u64 {
        i64::MAX
    } else {
        asked as i64
    }
}

/// `key` between two `%`.
pub fn contains_pattern(key: &str) -> (pattern: String)
    ensures
        pattern@ == seq!['%'] + key@ + seq!['%'],
{
    proof {
        reveal_strlit("%");
        assert("%"@ =~= seq!['%']);
    }
    let mut pattern = String::from_str("%");
    pattern.append(key);
    pattern.append("%");
    pattern
}

/// The records of `found` as a search hands them out: each of type `text`,
/// with `key` marked in its content where there is a key, and all else as
/// it came.
pub fn mark_all(found: Vec<Record>, key: &Option<String>) -> (hits: Vec<Record>)
    ensures
        hits.len() == found.len(),
        marked_for(hits@, *key),
        forall|i: int|
            0 <= i < hits.len() ==> {
                &&& (#[trigger] hits[i]).data_type@ == text_type()
                &&& hits[i].id == found[i].id
                &&& hits[i].content == found[i].content
                &&& hits[i].md5 == found[i].md5
                &&& hits[i].create_time == found[i].create_time
                &&& hits[i].is_favorite == found[i].is_favorite
            },
{
    let mut hits: Vec<Record> = Vec::new();
    let mut i: usize = 0;
    while i < found.len()
        invariant
            i <= found.len(),
            hits.len() == i,
            marked_for(hits@, *key),
            forall|j: int|
                0 <= j < i ==> {
                    &&& (#[trigger] hits[j]).data_type@ == text_type()
                    &&& hits[j].id == found[j].id
                    &&& hits[j].content == found[j].content
                    &&& hits[j].md5 == found[j].md5
                    &&& hits[j].create_time == found[j].create_time
                    &&& hits[j].is_favorite == found[j].is_favorite
                },
        decreases found.len() - i,
    {
        let r = &found[i];
        let content_highlight = match key {
            Some(k) => Some(highlight(k.as_str(), r.content.as_str())),
            None => None,
        };
        proof {
            reveal_strlit("text");
            assert("text"@ =~= text_type());
        }
        hits.push(
            Record {
                id: r.id,
                content: r.content.clone(),
                data_type: String::from_str("text"),
                md5: r.md5.clone(),
                create_time: r.create_time,
                is_favorite: r.is_favorite,
                content_highlight,
            },
        );
        i += 1;
    }
    hits
}

/// A store of records in one SQLite database.
pub struct SqliteDB {
    conn: Connection,
}

impl SqliteDB {
    /// Opens the database at `path` for reading and writing. Fails where
    /// there is none.
    pub fn new(path: &str) -> (res: Result<SqliteDB, StoreError>)
        ensures
            res matches Err(e) ==> e == StoreError::Init,
    {
        match engine::open(path, OPEN_READ_WRITE) {
            Ok(conn) => Ok(SqliteDB { conn }),
            Err(_) => Err(StoreError::Init),
        }
    }

    /// Makes the table where the database has none. An existing table is
    /// left as it is, so this may be repeated.
    pub fn create_table(&self) -> (res: Result<(), StoreError>)
        ensures
            res matches Err(e) ==> e == StoreError::Init,
    {
        match engine::create_table(&self.conn) {
            Ok(_) => Ok(()),
            Err(_) => Err(StoreError::Init),
        }
    }

    /// Inserts `r` as a new row stamped with the current time, whether or not
    /// its content is in the table already, and returns the new id.
    pub fn insert_record(&self, r: Record) -> (res: Result<i64, StoreError>)
        ensures
            res matches Err(e) ==> e == StoreError::Write,
    {
        let now = now_millis();
        self.insert_record_at(r, now)
    }

    /// Inserts `r` as a new row stamped with `now` and returns the new id.
    /// The row has the content, the data type and the favorite flag of `r`
    /// and the hash of its content.
    pub fn insert_record_at(&self, r: Record, now: u64) -> (res: Result<i64, StoreError>)
        ensures
            res matches Err(e) ==> e == StoreError::Write,
    {
        let hashed = with_hash(r);
        match engine::insert_row(&self.conn, &hashed, now) {
            Ok(id) => Ok(id),
            Err(_) => Err(StoreError::Write),
        }
    }

    /// A record with this hash, without marked content: what
    /// `found_or_missing` and `with_hash_asked` make of the answer of the
    /// database.
    pub fn find_record_by_md5(&self, md5: &str) -> (res: Result<Record, StoreError>)
        ensures
            match res {
                Ok(r) => r.content_highlight is None && r.md5@ == md5@,
                Err(e) => e == StoreError::NotFound || e == StoreError::Read,
            },
    {
        with_hash_asked(found_or_missing(engine::select_by_hash(&self.conn, md5)), md5)
    }

    /// Stamps the record with this id with `now`.
    fn update_record_create_time(&self, id: u64, now: u64) -> (res: Result<(), StoreError>)
        ensures
            res matches Err(e) ==> e == StoreError::Write,
    {
        match engine::update_time(&self.conn, id, now) {
            Ok(_) => Ok(()),
            Err(_) => Err(StoreError::Write),
        }
    }

    /// Records an occurrence of the content of `r` at the current time: a
    /// record that has its hash is stamped anew, and `r` is inserted where
    /// there is none.
    pub fn insert_if_not_exist(&self, r: Record) -> (res: Result<(), StoreError>)
        ensures
            res matches Err(e) ==> e == StoreError::Read || e == StoreError::Write,
    {
        let now = now_millis();
        self.insert_if_not_exist_at(r, now)
    }

    /// Records an occurrence of the content of `r` at time `now`: looks up
    /// the hash of the content and goes on as `record_after_lookup` says.
    pub fn insert_if_not_exist_at(&self, r: Record, now: u64) -> (res: Result<(), StoreError>)
        ensures
            res matches Err(e) ==> e == StoreError::Read || e == StoreError::Write,
    {
        let md5 = content_hash(r.content.as_str());
        let lookup = self.find_record_by_md5(md5.as_str());
        self.record_after_lookup(lookup, r, now)
    }

    /// What recording `r` at time `now` does once the lookup of its hash
    /// came back. A record found is stamped with `now`; where none was
    /// found, `r` is inserted; a lookup that failed otherwise ends the
    /// recording with its error, and the database is not asked again.
    pub fn record_after_lookup(
        &self,
        lookup: Result<Record, StoreError>,
        r: Record,
        now: u64,
    ) -> (res: Result<(), StoreError>)
        ensures
            match recording_plan(lookup, r) {
                Recording::Fail(e) => res == Err::<(), StoreError>(e),
                _ => res matches Err(e) ==> e == StoreError::Write,
            },
    {
        match recording_for(lookup, r) {
            Recording::Touch(id) => self.update_record_create_time(id, now),
            Recording::Insert(r) => match self.insert_record_at(r, now) {
                Ok(_) => Ok(()),
                Err(e) => Err(e),
            },
            Recording::Fail(e) => Err(e),
        }
    }

    /// Whether the database counts a record under this hash.
    pub fn md5_is_exist(&self, md5: String) -> (res: Result<bool, StoreError>)
        ensures
            res matches Err(e) ==> e == StoreError::Read,
    {
        match engine::count_by_hash(&self.conn, md5.as_str()) {
            Ok(count) => Ok(hash_counted(count)),
            Err(_) => Err(StoreError::Read),
        }
    }

    /// Deletes every record.
    pub fn clear_data(&self) -> (res: Result<(), StoreError>)
        ensures
            res matches Err(e) ==> e == StoreError::Write,
    {
        match engine::delete_all(&self.conn) {
            Ok(_) => Ok(()),
            Err(_) => Err(StoreError::Write),
        }
    }

    /// Flips the favorite flag of the record with this id: looks the record
    /// up and goes on as `toggle_after_lookup` says.
    pub fn mark_favorite(&self, id: u64) -> (res: Result<(), StoreError>)
        ensures
            res matches Err(e) ==> e == StoreError::NotFound || e == StoreError::Read || e
                == StoreError::Write,
    {
        let lookup = self.find_by_id(id);
        self.toggle_after_lookup(id, lookup)
    }

    /// What the toggle of `id` does once the lookup of the id came back. The
    /// record found gets the opposite of the flag that it has; a failed
    /// lookup ends the toggle with its error, `NotFound` where there is no
    /// such record, and the database is not asked again.
    pub fn toggle_after_lookup(&self, id: u64, lookup: Result<Record, StoreError>) -> (res: Result<
        (),
        StoreError,
    >)
        ensures
            match toggle_plan(lookup) {
                Err(e) => res == Err::<(), StoreError>(e),
                Ok(_) => res matches Err(e) ==> e == StoreError::Write,
            },
    {
        match toggle_for(lookup) {
            Ok(value) => match engine::update_favorite(&self.conn, id, value) {
                Ok(_) => Ok(()),
                Err(_) => Err(StoreError::Write),
            },
            Err(e) => Err(e),
        }
    }

    /// All records, the most recent first, without marked content.
    pub fn find_all(&self) -> (res: Result<Vec<Record>, StoreError>)
        ensures
            match res {
                Ok(v) => unmarked(v@) && newest_first(rows_of(v@)),
                Err(e) => e == StoreError::Read,
            },
    {
        match engine::select_all(&self.conn) {
            Ok(v) => Ok(v),
            Err(_) => Err(StoreError::Read),
        }
    }

    /// Applies the retention limit: counts the records and goes on as
    /// `evict_after_count` says.
    pub fn delete_over_limit(&self, limit: usize) -> (res: Result<(), StoreError>)
        ensures
            res matches Err(e) ==> e == StoreError::Read || e == StoreError::Write,
    {
        match engine::count_rows(&self.conn) {
            Ok(count) => self.evict_after_count(count, limit),
            Err(_) => Err(StoreError::Read),
        }
    }

    /// What retention does once the records were counted. Under `limit`
    /// plus the slack nothing is deleted and the call succeeds; from there
    /// on all but the `limit` records with the greatest ids are deleted. The
    /// time of a record plays no part.
    pub fn evict_after_count(&self, count: u64, limit: usize) -> (res: Result<(), StoreError>)
        ensures
            count < limit + EVICTION_SLACK ==> res == Ok::<(), StoreError>(()),
            res matches Err(e) ==> e == StoreError::Write,
    {
        if !eviction_due(count, limit) {
            return Ok(());
        }
        match engine::delete_beyond(&self.conn, limit as u64) {
            Ok(_) => Ok(()),
            Err(_) => Err(StoreError::Write),
        }
    }

    /// The record with this id, without marked content: what
    /// `found_or_missing` makes of the answer of the database.
    pub fn find_by_id(&self, id: u64) -> (res: Result<Record, StoreError>)
        ensures
            match res {
                Ok(r) => r.content_highlight is None && r.id == id,
                Err(e) => e == StoreError::NotFound || e == StoreError::Read,
            },
    {
        found_or_missing(engine::select_by_id(&self.conn, id))
    }

    /// Searches the text records. A record matches where its content
    /// contains the key and its favorite flag equals the one asked for, as
    /// far as the request gives them. The most recent matches are returned,
    /// the most recent first and no more than the limit, each with the key
    /// marked in its content where a key was given.
    pub fn find_by_key(&self, req: QueryReq) -> (res: Result<Vec<Record>, StoreError>)
        ensures
            match res {
                Ok(v) => {
                    &&& v.len() <= search_limit(req.limit)
                    &&& newest_first(rows_of(v@))
                    &&& marked_for(v@, req.key)
                    &&& forall|i: int|
                        0 <= i < v.len() ==> passes(#[trigger] v[i], req.key, req.is_favorite)
                },
                Err(e) => e == StoreError::Read,
            },
    {
        let cap = search_cap(req.limit);
        let pattern: Option<String> = match &req.key {
            Some(k) => Some(contains_pattern(k.as_str())),
            None => None,
        };
        let pattern_ref: Option<&str> = match &pattern {
            Some(p) => Some(p.as_str()),
            None => None,
        };
        match engine::select_matching(&self.conn, "text", pattern_ref, req.is_favorite, cap) {
            Ok(found) => {
                let hits = mark_all(found, &req.key);
                proof {
                    assert forall|i: int, j: int| 0 <= i < j < hits.len() implies rows_of(
                        hits@,
                    )[i].create_time >= rows_of(hits@)[j].create_time by {
                        assert(rows_of(found@)[i].create_time >= rows_of(found@)[j].create_time);
                    }
                }
                Ok(hits)
            },
            Err(_) => Err(StoreError::Read),
        }
    }
}

} // verus!
