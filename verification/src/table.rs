//! The table as a value: a sequence of rows in ascending order of `id`, what
//! each statement of the store makes of such a value as SQLite documents the
//! statement, and when an answer of the database fits it.
//!
//! The database itself is on disk and may change between two calls. Nothing
//! here says what it holds: this is the table that the store reasons about.

use crate::engine::sql_like;
use crate::record::Row;
use vstd::prelude::*;

verus! {

/// Number of records by which the table must exceed the retention limit
/// before anything is evicted.
pub const EVICTION_SLACK: u64 = 50;

/// The ids grow strictly along the table, so no id occurs twice.
pub open spec fn ids_ascending(t: Seq<Row>) -> bool {
    forall|i: int, j: int| 0 <= i < j < t.len() ==> t[i].id < t[j].id
}

/// `id` is greater than every id in the table.
pub open spec fn above_all(t: Seq<Row>, id: int) -> bool {
    forall|i: int| 0 <= i < t.len() ==> t[i].id < id
}

/// Some row has this id.
pub open spec fn has_id(t: Seq<Row>, id: int) -> bool {
    exists|i: int| 0 <= i < t.len() && t[i].id == id
}

/// Some row has this hash.
pub open spec fn has_hash(t: Seq<Row>, md5: Seq<char>) -> bool {
    exists|i: int| 0 <= i < t.len() && t[i].md5 == md5
}

/// No two rows have the same hash.
pub open spec fn hashes_unique(t: Seq<Row>) -> bool {
    forall|i: int, j: int| 0 <= i < j < t.len() ==> t[i].md5 != t[j].md5
}

/// The rows with this hash.
pub open spec fn rows_with_hash(t: Seq<Row>, md5: Seq<char>) -> Seq<Row> {
    t.filter(|r: Row| r.md5 == md5)
}

/// The table after the rows with this id got a new time.
pub open spec fn with_time(t: Seq<Row>, id: int, now: int) -> Seq<Row> {
    t.map_values(|r: Row| if r.id == id { Row { create_time: now, ..r } } else { r })
}

/// The table after the rows with this id got a new favorite flag.
pub open spec fn with_favorite(t: Seq<Row>, id: int, value: bool) -> Seq<Row> {
    t.map_values(|r: Row| if r.id == id { Row { is_favorite: value, ..r } } else { r })
}

/// The table after the favorite flag of the rows with this id was flipped.
pub open spec fn toggled(t: Seq<Row>, id: int) -> Seq<Row> {
    t.map_values(|r: Row| if r.id == id { Row { is_favorite: !r.is_favorite, ..r } } else { r })
}

/// The `keep` rows with the greatest ids; the whole table where it has no more.
pub open spec fn newest_ids(t: Seq<Row>, keep: nat) -> Seq<Row> {
    if t.len() <= keep {
        t
    } else {
        t.skip(t.len() - keep)
    }
}

/// The table after retention: untouched until it exceeds `limit` by the
/// slack, cut down to the `limit` greatest ids from there on.
pub open spec fn retained(t: Seq<Row>, limit: nat) -> Seq<Row> {
    if t.len() >= limit + EVICTION_SLACK {
        newest_ids(t, limit)
    } else {
        t
    }
}

/// `after` is `before` with `row` appended, whose id is greater than all.
pub open spec fn appended(before: Seq<Row>, after: Seq<Row>, row: Row) -> bool {
    &&& above_all(before, row.id)
    &&& after == before.push(row)
}

/// `after` is `before` with `row` refreshed or inserted: where a row has the
/// hash of `row` already, one such row got the time of `row` and nothing else
/// changed; otherwise `row` was appended under some id greater than all.
/// The id that `row` itself carries plays no part.
pub open spec fn touched_or_inserted(before: Seq<Row>, after: Seq<Row>, row: Row) -> bool {
    if has_hash(before, row.md5) {
        exists|i: int|
            0 <= i < before.len() && (#[trigger] before[i]).md5 == row.md5 && after == with_time(
                before,
                before[i].id,
                row.create_time,
            )
    } else {
        exists|id: int| #[trigger] appended(before, after, Row { id, ..row })
    }
}

/// The rows that a search considers: those of one data type that pass the
/// pattern and the favorite filter, where these are given.
pub open spec fn matching(
    t: Seq<Row>,
    data_type: Seq<char>,
    pattern: Option<Seq<char>>,
    favorite: Option<bool>,
) -> Seq<Row> {
    t.filter(
        |r: Row|
            {
                &&& r.data_type == data_type
                &&& pattern matches Some(p) ==> sql_like(p, r.content)
                &&& favorite matches Some(f) ==> r.is_favorite == f
            },
    )
}

/// No row is older than the row before it.
pub open spec fn newest_first(s: Seq<Row>) -> bool {
    forall|i: int, j: int| 0 <= i < j < s.len() ==> s[i].create_time >= s[j].create_time
}

/// `out` lists the whole table, most recent first.
pub open spec fn is_listing(out: Seq<Row>, t: Seq<Row>) -> bool {
    &&& newest_first(out)
    &&& out.to_multiset() == t.to_multiset()
}

/// `out` lists, most recent first, the `limit` most recent rows of `pool`:
/// all of them where `pool` has no more than `limit`. Which of two equally
/// recent rows comes first, or is left out at the cut, is open.
pub open spec fn is_newest_of(out: Seq<Row>, pool: Seq<Row>, limit: nat) -> bool {
    &&& newest_first(out)
    &&& out.to_multiset().subset_of(pool.to_multiset())
    &&& out.len() == if pool.len() <= limit { pool.len() } else { limit }
    &&& forall|r: Row, i: int|
        0 <= i < out.len() && pool.to_multiset().count(r) > out.to_multiset().count(r)
            ==> #[trigger] out[i].create_time >= #[trigger] r.create_time
}

/// Appending a row whose hash is new keeps the hashes unique.
pub proof fn lemma_append_new_hash(t: Seq<Row>, row: Row)
    requires
        !has_hash(t, row.md5),
    ensures
        hashes_unique(t) ==> hashes_unique(t.push(row)),
{
    if hashes_unique(t) {
        let after = t.push(row);
        assert forall|i: int, j: int| 0 <= i < j < after.len() implies after[i].md5
            != after[j].md5 by {
            if j == t.len() {
                assert(t[i].md5 != row.md5);
            }
        }
    }
}

/// Where no id occurs twice, setting the flag of the row under an id to the
/// opposite of what that row holds flips it.
pub proof fn lemma_toggle_by_id(t: Seq<Row>, row: Row)
    requires
        ids_ascending(t),
        t.contains(row),
    ensures
        has_id(t, row.id),
        with_favorite(t, row.id, !row.is_favorite) == toggled(t, row.id),
{
    let k = t.index_of(row);
    assert(t[k].id == row.id);
    let a = with_favorite(t, row.id, !row.is_favorite);
    let b = toggled(t, row.id);
    assert forall|i: int| 0 <= i < t.len() implies a[i] == b[i] by {
        if t[i].id == row.id {
            assert(i == k) by {
                if i < k {
                    assert(t[i].id < t[k].id);
                } else if k < i {
                    assert(t[k].id < t[i].id);
                }
            }
        }
    }
    assert(a =~= b);
}

} // verus!
