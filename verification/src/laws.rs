//! What holds of the store, stated over the table as a value.
//!
//! The database may change between two calls, so these laws do not speak of
//! it. They say: if the table is `t` while an operation runs, if the answers
//! that the operation gets fit `t`, and if each statement does to `t` what
//! SQLite documents, then the decisions of `plan` lead where the store
//! promises.

use crate::digest::md5_hex;
use crate::engine::sql_like;
use crate::plan::{new_row, recording_plan, toggle_plan, Recording};
use crate::record::{Record, Row, StoreError};
use crate::table::{
    appended, has_hash, has_id, hashes_unique, ids_ascending, is_listing, is_newest_of,
    lemma_append_new_hash, lemma_toggle_by_id, matching, retained, rows_with_hash, toggled,
    touched_or_inserted, with_favorite, with_time, EVICTION_SLACK,
};
use vstd::prelude::*;

verus! {

/// The answer of a lookup by hash fits the table: a record found is one of
/// its rows and has the hash, and `NotFound` comes only where no row has it.
pub open spec fn hash_lookup_fits(
    t: Seq<Row>,
    md5: Seq<char>,
    lookup: Result<Record, StoreError>,
) -> bool {
    match lookup {
        Ok(found) => t.contains(found.row()) && found.md5@ == md5,
        Err(e) => e == StoreError::NotFound ==> !has_hash(t, md5),
    }
}

/// The answer of a lookup by id fits the table: a record found is one of its
/// rows and has the id, and `NotFound` comes only where no row has it.
pub open spec fn id_lookup_fits(t: Seq<Row>, id: u64, lookup: Result<Record, StoreError>) -> bool {
    match lookup {
        Ok(found) => t.contains(found.row()) && found.id == id,
        Err(e) => e == StoreError::NotFound ==> !has_id(t, id as int),
    }
}

/// `after` is what carrying out a recording makes of `t`: the time set under
/// the id, the record appended under some id greater than all, or nothing.
pub open spec fn recording_done(plan: Recording, t: Seq<Row>, after: Seq<Row>, now: int) -> bool {
    match plan {
        Recording::Touch(id) => after == with_time(t, id as int, now),
        Recording::Insert(r) => exists|id: int| #[trigger] appended(t, after, new_row(r, id, now)),
        Recording::Fail(_) => after == t,
    }
}

/// Recording a content on a lookup that fits the table refreshes the record
/// that has its hash or inserts one, and a lookup that failed for another
/// reason than `NotFound` leaves the table as it was.
pub proof fn law_recording_plan(
    t: Seq<Row>,
    after: Seq<Row>,
    lookup: Result<Record, StoreError>,
    r: Record,
    now: int,
)
    requires
        hash_lookup_fits(t, md5_hex(r.content@), lookup),
        recording_done(recording_plan(lookup, r), t, after, now),
    ensures
        match recording_plan(lookup, r) {
            Recording::Fail(e) => after == t && lookup == Err::<Record, StoreError>(e) && e
                != StoreError::NotFound,
            _ => touched_or_inserted(t, after, new_row(r, 0, now)),
        },
{
    match lookup {
        Ok(found) => {
            let i = t.index_of(found.row());
            assert(t[i].md5 == new_row(r, 0, now).md5 && t[i].id == found.id);
        },
        Err(e) => {
            if e == StoreError::NotFound {
                let id = choose|id: int| #[trigger] appended(t, after, new_row(r, id, now));
                assert(new_row(r, id, now) == Row { id, ..new_row(r, 0, now) });
            }
        },
    }
}

/// `after` is what carrying out a toggle makes of `t`: the flag set under
/// the id, or nothing.
pub open spec fn toggle_done(
    plan: Result<bool, StoreError>,
    t: Seq<Row>,
    after: Seq<Row>,
    id: u64,
) -> bool {
    match plan {
        Ok(value) => after == with_favorite(t, id as int, value),
        Err(_) => after == t,
    }
}

/// A toggle on a lookup that fits the table flips the flag of the record
/// with the id and changes nothing else; a failed lookup leaves the table as
/// it was, and `NotFound` comes only where no record has the id.
pub proof fn law_toggle_plan(
    t: Seq<Row>,
    after: Seq<Row>,
    id: u64,
    lookup: Result<Record, StoreError>,
)
    requires
        ids_ascending(t),
        id_lookup_fits(t, id, lookup),
        toggle_done(toggle_plan(lookup), t, after, id),
    ensures
        match toggle_plan(lookup) {
            Ok(_) => has_id(t, id as int) && after == toggled(t, id as int),
            Err(e) => after == t && lookup == Err::<Record, StoreError>(e) && (e
                == StoreError::NotFound ==> !has_id(t, id as int)),
        },
{
    if let Ok(found) = lookup {
        lemma_toggle_by_id(t, found.row());
    }
}

/// A hash is in the table exactly where the number of rows under it is not
/// zero.
pub proof fn law_hash_counted(t: Seq<Row>, md5: Seq<char>, count: u64)
    requires
        count == rows_with_hash(t, md5).len(),
    ensures
        (count > 0) == has_hash(t, md5),
{
    broadcast use vstd::seq_lib::group_filter_ensures;

    let pred = |r: Row| r.md5 == md5;
    let found = t.filter(pred);
    if has_hash(t, md5) {
        let i = choose|i: int| 0 <= i < t.len() && t[i].md5 == md5;
        assert(pred(t[i]));
        assert(found.contains(t[i]));
    }
    if found.len() > 0 {
        assert(pred(found[0]));
        assert(found.contains(found[0]));
        t.lemma_filter_contains_rev(pred, found[0]);
        let i = t.index_of(found[0]);
        assert(t[i].md5 == md5);
    }
}

/// Row `k` is the only row of the table with this hash.
pub open spec fn sole_with_hash(t: Seq<Row>, md5: Seq<char>, k: int) -> bool {
    &&& 0 <= k < t.len()
    &&& t[k].md5 == md5
    &&& forall|j: int| 0 <= j < t.len() && j != k ==> (#[trigger] t[j]).md5 != md5
}

/// After a content was recorded, its hash is in the table; the hashes that
/// were there stay, and no other hash comes in.
pub proof fn law_recorded_hash_exists(before: Seq<Row>, after: Seq<Row>, row: Row)
    requires
        touched_or_inserted(before, after, row),
    ensures
        has_hash(after, row.md5),
        forall|md5: Seq<char>| md5 != row.md5 ==> (has_hash(after, md5) <==> has_hash(before, md5)),
{
    if has_hash(before, row.md5) {
        let i = choose|i: int|
            0 <= i < before.len() && (#[trigger] before[i]).md5 == row.md5 && after == with_time(
                before,
                before[i].id,
                row.create_time,
            );
        assert(after[i].md5 == row.md5);
        assert forall|md5: Seq<char>| has_hash(after, md5) <==> has_hash(before, md5) by {
            if has_hash(after, md5) {
                let j = choose|j: int| 0 <= j < after.len() && after[j].md5 == md5;
                assert(before[j].md5 == md5);
            }
            if has_hash(before, md5) {
                let j = choose|j: int| 0 <= j < before.len() && before[j].md5 == md5;
                assert(after[j].md5 == md5);
            }
        }
    } else {
        let id = choose|id: int| #[trigger]
            appended(before, after, Row { id, ..row });
        assert(after[before.len() as int].md5 == row.md5);
        assert forall|md5: Seq<char>| md5 != row.md5 implies (has_hash(after, md5) <==> has_hash(
            before,
            md5,
        )) by {
            if has_hash(after, md5) {
                let j = choose|j: int| 0 <= j < after.len() && after[j].md5 == md5;
                assert(before[j].md5 == md5);
            }
            if has_hash(before, md5) {
                let j = choose|j: int| 0 <= j < before.len() && before[j].md5 == md5;
                assert(after[j].md5 == md5);
            }
        }
    }
}

/// Recording a content keeps the ids ascending and the hashes unique, and
/// leaves exactly one row with its hash, stamped with the time of the
/// recording.
pub proof fn law_recorded_once(before: Seq<Row>, after: Seq<Row>, row: Row)
    requires
        ids_ascending(before),
        hashes_unique(before),
        touched_or_inserted(before, after, row),
    ensures
        ids_ascending(after),
        hashes_unique(after),
        exists|k: int| sole_with_hash(after, row.md5, k) && after[k].create_time == row.create_time,
        has_hash(before, row.md5) ==> after.len() == before.len(),
        !has_hash(before, row.md5) ==> after.len() == before.len() + 1,
{
    if has_hash(before, row.md5) {
        let i = choose|i: int|
            0 <= i < before.len() && (#[trigger] before[i]).md5 == row.md5 && after == with_time(
                before,
                before[i].id,
                row.create_time,
            );
        assert forall|j: int| 0 <= j < after.len() && j != i implies (#[trigger] after[j]).md5
            != row.md5 by {
            if j < i {
                assert(before[j].md5 != before[i].md5);
            } else {
                assert(before[i].md5 != before[j].md5);
            }
        }
        assert(sole_with_hash(after, row.md5, i) && after[i].create_time == row.create_time);
    } else {
        let id = choose|id: int| #[trigger]
            appended(before, after, Row { id, ..row });
        let k = before.len() as int;
        assert forall|j: int| 0 <= j < after.len() && j != k implies (#[trigger] after[j]).md5
            != row.md5 by {
            assert(before[j].md5 != row.md5);
        }
        assert(sole_with_hash(after, row.md5, k) && after[k].create_time == row.create_time);
        lemma_append_new_hash(before, Row { id, ..row });
    }
}

/// Recording the same content twice leaves exactly one row with its hash,
/// stamped with the time of the second recording, and the second recording
/// adds no row.
pub proof fn law_recorded_twice(
    before: Seq<Row>,
    between: Seq<Row>,
    after: Seq<Row>,
    row: Row,
    first: int,
    second: int,
)
    requires
        ids_ascending(before),
        hashes_unique(before),
        touched_or_inserted(before, between, Row { create_time: first, ..row }),
        touched_or_inserted(between, after, Row { create_time: second, ..row }),
    ensures
        after.len() == between.len(),
        exists|k: int| sole_with_hash(after, row.md5, k) && after[k].create_time == second,
{
    law_recorded_once(before, between, Row { create_time: first, ..row });
    law_recorded_hash_exists(before, between, Row { create_time: first, ..row });
    law_recorded_once(between, after, Row { create_time: second, ..row });
}

/// Flipping the favorite flag of an id twice gives the table back.
pub proof fn law_toggle_twice(t: Seq<Row>, id: int)
    ensures
        toggled(toggled(t, id), id) == t,
{
    assert(toggled(toggled(t, id), id) =~= t);
}

/// A search returns no more records than its limit, each a row of the table
/// of the data type asked for that passes the filters given.
pub proof fn law_search_filters(
    out: Seq<Row>,
    t: Seq<Row>,
    data_type: Seq<char>,
    pattern: Option<Seq<char>>,
    favorite: Option<bool>,
    limit: nat,
)
    requires
        is_newest_of(out, matching(t, data_type, pattern, favorite), limit),
    ensures
        out.len() <= limit,
        forall|i: int|
            0 <= i < out.len() ==> {
                &&& t.contains(#[trigger] out[i])
                &&& out[i].data_type == data_type
                &&& favorite matches Some(f) ==> out[i].is_favorite == f
                &&& pattern matches Some(p) ==> sql_like(p, out[i].content)
            },
{
    broadcast use vstd::seq_lib::group_to_multiset_ensures;

    let pred = |r: Row|
        {
            &&& r.data_type == data_type
            &&& pattern matches Some(p) ==> sql_like(p, r.content)
            &&& favorite matches Some(f) ==> r.is_favorite == f
        };
    let pool = t.filter(pred);
    assert(pool == matching(t, data_type, pattern, favorite));
    assert forall|i: int| 0 <= i < out.len() implies {
        &&& t.contains(#[trigger] out[i])
        &&& out[i].data_type == data_type
        &&& favorite matches Some(f) ==> out[i].is_favorite == f
        &&& pattern matches Some(p) ==> sql_like(p, out[i].content)
    } by {
        assert(out.contains(out[i]));
        assert(out.to_multiset().count(out[i]) > 0);
        assert(pool.to_multiset().count(out[i]) > 0);
        assert(pool.contains(out[i]));
        t.lemma_filter_contains_rev(pred, out[i]);
    }
}

/// Retention leaves a table alone that is under the limit plus the slack.
/// A table at or over it is cut down to exactly `limit` rows, and every row
/// that stays has a greater id than every row that goes.
pub proof fn law_retention(t: Seq<Row>, limit: nat)
    requires
        ids_ascending(t),
    ensures
        ids_ascending(retained(t, limit)),
        hashes_unique(t) ==> hashes_unique(retained(t, limit)),
        t.len() < limit + EVICTION_SLACK ==> retained(t, limit) == t,
        t.len() >= limit + EVICTION_SLACK ==> {
            &&& retained(t, limit).len() == limit
            &&& retained(t, limit) == t.skip(t.len() - limit)
            &&& forall|i: int, j: int|
                0 <= i < t.len() - limit && 0 <= j < limit ==> t[i].id < (#[trigger] retained(
                    t,
                    limit,
                )[j]).id && !retained(t, limit).contains(#[trigger] t[i])
        },
{
    if t.len() >= limit + EVICTION_SLACK {
        let kept = retained(t, limit);
        let cut = t.len() - limit;
        assert forall|i: int, j: int| 0 <= i < cut && 0 <= j < limit implies t[i].id < (
        #[trigger] kept[j]).id && !kept.contains(#[trigger] t[i]) by {
            assert(kept[j] == t[cut + j]);
            if kept.contains(t[i]) {
                let k = kept.index_of(t[i]);
                assert(kept[k] == t[cut + k]);
                assert(t[i].id < t[cut + k].id);
            }
        }
    }
}

/// A listing holds every row of the table once; that of an empty table,
/// such as a cleared one, is empty.
pub proof fn law_listing_complete(out: Seq<Row>, t: Seq<Row>)
    requires
        is_listing(out, t),
    ensures
        out.len() == t.len(),
        forall|i: int| 0 <= i < t.len() ==> out.contains(#[trigger] t[i]),
        forall|i: int| 0 <= i < out.len() ==> t.contains(#[trigger] out[i]),
        t == Seq::<Row>::empty() ==> out == Seq::<Row>::empty(),
{
    broadcast use vstd::seq_lib::group_to_multiset_ensures;

    assert(out.to_multiset().len() == t.to_multiset().len());
    assert forall|i: int| 0 <= i < t.len() implies out.contains(#[trigger] t[i]) by {
        assert(t.contains(t[i]));
        assert(t.to_multiset().count(t[i]) > 0);
    }
    assert forall|i: int| 0 <= i < out.len() implies t.contains(#[trigger] out[i]) by {
        assert(out.contains(out[i]));
        assert(out.to_multiset().count(out[i]) > 0);
    }
    if t == Seq::<Row>::empty() {
        assert(out =~= Seq::<Row>::empty());
    }
}

/// One change that the store makes to its table.
pub enum Change {
    /// A content was recorded: refreshed where its hash was known, inserted
    /// where not.
    Record(Row),
    /// A row was inserted without a look at the hashes.
    Insert(Row),
    /// The favorite flag of an id was flipped.
    Toggle(int),
    /// The retention limit was applied.
    Retain(nat),
    /// The table was cleared.
    Clear,
}

/// `change` leads from `before` to `after`.
pub open spec fn leads(before: Seq<Row>, after: Seq<Row>, change: Change) -> bool {
    match change {
        Change::Record(row) => touched_or_inserted(before, after, row),
        Change::Insert(row) => exists|id: int| #[trigger]
            appended(before, after, Row { id, ..row }),
        Change::Toggle(id) => after == toggled(before, id),
        Change::Retain(limit) => after == retained(before, limit),
        Change::Clear => after == Seq::<Row>::empty(),
    }
}

/// `tables` are the states of a table that starts empty, and `changes[k]`
/// leads from `tables[k]` to the next.
pub open spec fn is_history(tables: Seq<Seq<Row>>, changes: Seq<Change>) -> bool {
    &&& tables.len() == changes.len() + 1
    &&& tables[0] == Seq::<Row>::empty()
    &&& forall|k: int| 0 <= k < changes.len() ==> leads(tables[k], tables[k + 1], #[trigger] changes[k])
}

/// `change` brings a row with this hash into the table.
pub open spec fn brings_hash(change: Change, md5: Seq<char>) -> bool {
    match change {
        Change::Record(row) => row.md5 == md5,
        Change::Insert(row) => row.md5 == md5,
        _ => false,
    }
}

/// A hash is not in the table before a content with that hash was recorded
/// or inserted, whatever else happened to the table.
pub proof fn law_hash_absent_before_recording(
    tables: Seq<Seq<Row>>,
    changes: Seq<Change>,
    md5: Seq<char>,
)
    requires
        is_history(tables, changes),
        forall|k: int| 0 <= k < changes.len() ==> !brings_hash(#[trigger] changes[k], md5),
    ensures
        !has_hash(tables.last(), md5),
    decreases changes.len(),
{
    if changes.len() > 0 {
        let n = changes.len() as int;
        let earlier = tables.take(n);
        let done = changes.take(n - 1);
        assert(is_history(earlier, done)) by {
            assert forall|k: int| 0 <= k < done.len() implies leads(
                earlier[k],
                earlier[k + 1],
                #[trigger] done[k],
            ) by {
                assert(leads(tables[k], tables[k + 1], changes[k]));
            }
        }
        assert forall|k: int| 0 <= k < done.len() implies !brings_hash(#[trigger] done[k], md5) by {
            assert(!brings_hash(changes[k], md5));
        }
        law_hash_absent_before_recording(earlier, done, md5);
        let before = tables[n - 1];
        let after = tables[n];
        assert(earlier.last() == before);
        assert(tables.last() == after);
        assert(leads(before, after, changes[n - 1]));
        assert(!brings_hash(changes[n - 1], md5));
        lemma_change_brings_no_other_hash(before, after, changes[n - 1], md5);
    }
}

/// A change that does not bring a hash leaves it absent where it was absent.
proof fn lemma_change_brings_no_other_hash(
    before: Seq<Row>,
    after: Seq<Row>,
    change: Change,
    md5: Seq<char>,
)
    requires
        leads(before, after, change),
        !brings_hash(change, md5),
        !has_hash(before, md5),
    ensures
        !has_hash(after, md5),
{
    if has_hash(after, md5) {
        let j = choose|j: int| 0 <= j < after.len() && after[j].md5 == md5;
        match change {
            Change::Record(row) => {
                law_recorded_hash_exists(before, after, row);
            },
            Change::Insert(row) => {
                let id = choose|id: int| #[trigger]
                    appended(before, after, Row { id, ..row });
                assert(before[j].md5 == md5);
            },
            Change::Toggle(id) => {
                assert(before[j].md5 == md5);
            },
            Change::Retain(limit) => {
                if before.len() >= limit + EVICTION_SLACK && before.len() > limit {
                    assert(before[before.len() - limit + j].md5 == md5);
                } else {
                    assert(before[j].md5 == md5);
                }
            },
            Change::Clear => {},
        }
    }
}

} // verus!
