//! The statements that the store runs in SQLite. Nothing in this file is
//! proved. What the database holds is on disk and may change between two
//! calls, so no contract here speaks of it: each says only what holds of the
//! value that one call returned.

use crate::record::{rows_of, stored_record, unmarked, Record};
use crate::table::newest_first;
use rusqlite::{Connection, Error, OpenFlags, OptionalExtension};
use vstd::prelude::*;

verus! {

#[verifier::external_type_specification]
#[verifier::external_body]
pub struct ExConnection(Connection);

#[verifier::external_type_specification]
#[verifier::external_body]
pub struct ExError(Error);

/// Whether SQLite's `LIKE` accepts `text` for `pattern`. The SQLite is the
/// one that comes with `rusqlite` and is built with it, and the store hands
/// its connection to nobody, so that no pragma and no function of another
/// making changes what `LIKE` does.
pub uninterp spec fn sql_like(pattern: Seq<char>, text: Seq<char>) -> bool;

/// `Connection::open_with_flags`, the flags given as SQLite's bits.
#[verifier::external_body]
pub(crate) fn open(path: &str, flags: i32) -> (res: Result<Connection, Error>) {
    Connection::open_with_flags(path, OpenFlags::from_bits_truncate(flags))
}

/// `Connection::execute` on `CREATE TABLE IF NOT EXISTS`.
#[verifier::external_body]
pub(crate) fn create_table(conn: &Connection) -> (res: Result<usize, Error>) {
    conn.execute(
        r#"
        create table if not exists record
        (
            id          INTEGER NOT NULL PRIMARY KEY AUTOINCREMENT,
            content     TEXT,
            data_type   VARCHAR(20) DEFAULT '',
            md5         VARCHAR(200) DEFAULT '',
            create_time INTEGER,
            is_favorite INTEGER DEFAULT 0
        );
        "#,
        (),
    )
}

/// `Statement::insert` on an `INSERT` of one row, made of the content, the
/// hash, the data type and the favorite flag of `r` and of the time `now`.
/// Returns the id that SQLite gave the row.
#[verifier::external_body]
pub(crate) fn insert_row(conn: &Connection, r: &Record, now: u64) -> (res: Result<i64, Error>) {
    let mut stmt = conn.prepare(
        "insert into record (content,md5,create_time,is_favorite,data_type) values (?1,?2,?3,?4,?5)",
    )?;
    stmt.insert((&r.content, &r.md5, now, r.is_favorite, &r.data_type))
}

/// `Connection::query_row` on a `SELECT` by hash, with `optional`: `None`
/// where the query gave no row. Claims only that a record returned carries
/// no marked content.
#[verifier::external_body]
pub(crate) fn select_by_hash(conn: &Connection, md5: &str) -> (res: Result<Option<Record>, Error>)
    ensures
        res matches Ok(Some(r)) ==> r.content_highlight is None,
{
    conn.query_row(
        "SELECT id, content, data_type, md5, create_time, is_favorite FROM record WHERE md5 = ?1",
        [md5],
        |row| Ok(stored_record(row.get(0)?, row.get(1)?, row.get(2)?, row.get(3)?, row.get(4)?, row.get(5)?)),
    ).optional()
}

/// `Connection::query_row` on a `SELECT` by id, with `optional`: `None`
/// where the query gave no row. Claims that a record returned has the id
/// asked for.
#[verifier::external_body]
pub(crate) fn select_by_id(conn: &Connection, id: u64) -> (res: Result<Option<Record>, Error>)
    ensures
        res matches Ok(Some(r)) ==> r.content_highlight is None && r.id == id,
{
    conn.query_row(
        "SELECT id, content, data_type, md5, create_time, is_favorite FROM record where id = ?1",
        [id],
        |row| Ok(stored_record(row.get(0)?, row.get(1)?, row.get(2)?, row.get(3)?, row.get(4)?, row.get(5)?)),
    ).optional()
}

/// `Connection::execute` on an `UPDATE` of `create_time` by id. Returns the
/// number of rows changed.
#[verifier::external_body]
pub(crate) fn update_time(conn: &Connection, id: u64, now: u64) -> (res: Result<usize, Error>) {
    conn.execute("update record set create_time = ?2 where id = ?1", (id, now))
}

/// `Connection::execute` on an `UPDATE` of `is_favorite` by id. Returns the
/// number of rows changed.
#[verifier::external_body]
pub(crate) fn update_favorite(conn: &Connection, id: u64, value: bool) -> (res: Result<
    usize,
    Error,
>) {
    conn.execute("update record set is_favorite = ?2 where id = ?1", (id, value))
}

/// `Connection::query_row` on `SELECT count(*)` by hash.
#[verifier::external_body]
pub(crate) fn count_by_hash(conn: &Connection, md5: &str) -> (res: Result<u64, Error>) {
    conn.query_row("SELECT count(*) FROM record WHERE md5 = ?1", [md5], |row| row.get(0))
}

/// `Connection::query_row` on `SELECT count(*)`.
#[verifier::external_body]
pub(crate) fn count_rows(conn: &Connection) -> (res: Result<u64, Error>) {
    conn.query_row("SELECT count(*) FROM record", (), |row| row.get(0))
}

/// `Connection::execute` on a `DELETE` without condition. Returns the number
/// of rows deleted.
#[verifier::external_body]
pub(crate) fn delete_all(conn: &Connection) -> (res: Result<usize, Error>) {
    conn.execute("delete from record", ())
}

/// `Connection::execute` on a `DELETE` of all rows but the `keep` greatest
/// ids. Returns the number of rows deleted.
#[verifier::external_body]
pub(crate) fn delete_beyond(conn: &Connection, keep: u64) -> (res: Result<usize, Error>) {
    conn.execute(
        "DELETE FROM record WHERE id IN (SELECT id FROM record ORDER BY id DESC LIMIT -1 OFFSET ?1)",
        [keep],
    )
}

/// `Statement::query_map` on a `SELECT` of all rows by descending
/// `create_time`. Claims that no record returned is older than the one
/// before it.
#[verifier::external_body]
pub(crate) fn select_all(conn: &Connection) -> (res: Result<Vec<Record>, Error>)
    ensures
        res matches Ok(v) ==> unmarked(v@) && newest_first(rows_of(v@)),
{
    let mut stmt = conn.prepare(
        "SELECT id, content, data_type, md5, create_time, is_favorite FROM record order by create_time desc",
    )?;
    let rows = stmt.query_map(
        (),
        |row| Ok(stored_record(row.get(0)?, row.get(1)?, row.get(2)?, row.get(3)?, row.get(4)?, row.get(5)?)),
    )?;
    rows.collect()
}

/// `Statement::query_map` on a `SELECT` of the rows of one data type, by
/// descending `create_time` and cut at `limit`, the content under `LIKE`
/// where a pattern is given and `is_favorite` compared where a flag is.
/// Claims that there are no more records than `limit`, that none is older
/// than the one before it, and that each passes the pattern and has the
/// flag.
#[verifier::external_body]
pub(crate) fn select_matching(
    conn: &Connection,
    data_type: &str,
    pattern: Option<&str>,
    favorite: Option<bool>,
    limit: i64,
) -> (res: Result<Vec<Record>, Error>)
    requires
        limit >= 0,
    ensures
        res matches Ok(v) ==> unmarked(v@) && newest_first(rows_of(v@)) && v.len() <= limit,
        res matches Ok(v) ==> forall|i: int|
            0 <= i < v.len() ==> {
                &&& pattern matches Some(p) ==> sql_like(p@, (#[trigger] v[i]).content@)
                &&& favorite matches Some(f) ==> v[i].is_favorite == f
            },
{
    let mut stmt = conn.prepare(
        "SELECT id, content, data_type, md5, create_time, is_favorite FROM record \
         WHERE data_type = ?1 AND (?2 IS NULL OR content LIKE ?2) AND (?3 IS NULL OR is_favorite = ?3) \
         ORDER BY create_time DESC LIMIT ?4",
    )?;
    let rows = stmt.query_map(
        (data_type, pattern, favorite, limit),
        |row| Ok(stored_record(row.get(0)?, row.get(1)?, row.get(2)?, row.get(3)?, row.get(4)?, row.get(5)?)),
    )?;
    rows.collect()
}

} // verus!
