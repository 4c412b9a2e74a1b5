//! The decisions of the store: what to do next, given what the database
//! answered. Each is a function of the answer alone.

use crate::digest::{content_hash, md5_hex};
use crate::record::{Record, Row, StoreError};
use rusqlite::Error;
use crate::table::EVICTION_SLACK;
use vstd::prelude::*;

verus! {

/// The row that an insertion of `r` makes under `id` at time `now`: the hash
/// is that of the content, whatever `r.md5` holds.
pub open spec fn new_row(r: Record, id: int, now: int) -> Row {
    Row {
        id,
        content: r.content@,
        data_type: r.data_type@,
        md5: md5_hex(r.content@),
        create_time: now,
        is_favorite: r.is_favorite,
    }
}

/// `r` with the hash of its content in place of what `r.md5` held.
pub fn with_hash(r: Record) -> (hashed: Record)
    ensures
        hashed.md5@ == md5_hex(r.content@),
        hashed.id == r.id,
        hashed.content == r.content,
        hashed.data_type == r.data_type,
        hashed.create_time == r.create_time,
        hashed.is_favorite == r.is_favorite,
        hashed.content_highlight == r.content_highlight,
{
    let md5 = content_hash(r.content.as_str());
    Record {
        id: r.id,
        content: r.content,
        data_type: r.data_type,
        md5,
        create_time: r.create_time,
        is_favorite: r.is_favorite,
        content_highlight: r.content_highlight,
    }
}

/// What a lookup makes of the answer of the database: the record where there
/// is one, `NotFound` where the query gave no row, `Read` where it failed.
pub fn found_or_missing(answer: Result<Option<Record>, Error>) -> (res: Result<Record, StoreError>)
    ensures
        match answer {
            Ok(Some(r)) => res == Ok::<Record, StoreError>(r),
            Ok(None) => res == Err::<Record, StoreError>(StoreError::NotFound),
            Err(_) => res == Err::<Record, StoreError>(StoreError::Read),
        },
{
    match answer {
        Ok(Some(r)) => Ok(r),
        Ok(None) => Err(StoreError::NotFound),
        Err(_) => Err(StoreError::Read),
    }
}

/// What a lookup by hash makes of a record that came back: the record where
/// its hash is the one asked for, `Read` where the database handed out
/// another. A lookup that found nothing or failed stays as it is.
pub fn with_hash_asked(found: Result<Record, StoreError>, md5: &str) -> (res: Result<
    Record,
    StoreError,
>)
    ensures
        match found {
            Ok(r) => if r.md5@ == md5@ {
                res == Ok::<Record, StoreError>(r)
            } else {
                res == Err::<Record, StoreError>(StoreError::Read)
            },
            Err(e) => res == Err::<Record, StoreError>(e),
        },
{
    match found {
        Ok(r) => {
            if r.md5 == String::from_str(md5) {
                Ok(r)
            } else {
                Err(StoreError::Read)
            }
        },
        Err(e) => Err(e),
    }
}

/// What recording a content does once its hash was looked up.
#[derive(Debug)]
pub enum Recording {
    /// Stamp the record under this id with the new time.
    Touch(u64),
    /// Insert this record.
    Insert(Record),
    /// Do nothing and fail with this error.
    Fail(StoreError),
}

/// A record found is stamped anew; `r` is inserted where none was found; a
/// lookup that failed otherwise fails the recording with its error.
pub open spec fn recording_plan(lookup: Result<Record, StoreError>, r: Record) -> Recording {
    match lookup {
        Ok(found) => Recording::Touch(found.id),
        Err(e) => if e == StoreError::NotFound {
            Recording::Insert(r)
        } else {
            Recording::Fail(e)
        },
    }
}

/// What to do with `r` after the lookup of its hash came back with `lookup`.
pub fn recording_for(lookup: Result<Record, StoreError>, r: Record) -> (plan: Recording)
    ensures
        plan == recording_plan(lookup, r),
{
    match lookup {
        Ok(found) => Recording::Touch(found.id),
        Err(StoreError::NotFound) => Recording::Insert(r),
        Err(e) => Recording::Fail(e),
    }
}

/// The flag to set is the opposite of the one found; a failed lookup fails
/// the toggle with its error.
pub open spec fn toggle_plan(lookup: Result<Record, StoreError>) -> Result<bool, StoreError> {
    match lookup {
        Ok(found) => Ok(!found.is_favorite),
        Err(e) => Err(e),
    }
}

/// The favorite flag to set after the lookup of the id came back with
/// `lookup`.
pub fn toggle_for(lookup: Result<Record, StoreError>) -> (plan: Result<bool, StoreError>)
    ensures
        plan == toggle_plan(lookup),
{
    match lookup {
        Ok(found) => Ok(!found.is_favorite),
        Err(e) => Err(e),
    }
}

/// Whether a table of `count` rows is to be cut down to `limit`: it is from
/// `limit` plus the slack on.
pub fn eviction_due(count: u64, limit: usize) -> (due: bool)
    ensures
        due == (count >= limit + EVICTION_SLACK),
{
    count >= EVICTION_SLACK && count - EVICTION_SLACK >= limit as u64
}

/// Whether a hash is known, given the number of rows counted under it.
pub fn hash_counted(count: u64) -> (known: bool)
    ensures
        known == (count > 0),
{
    count > 0
}

} // verus!
