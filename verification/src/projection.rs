//! The convergent upsert, stated once for every table.
//!
//! Each table of the store maps a key to one row. A batch of incoming
//! rows is folded in by `apply_rows`: a missing key is inserted whole, an
//! existing key is merged. Every table's merge follows the same shape: a
//! phase field group is replaced exactly when the incoming coordinate is
//! strictly newer, so replays and reordering cannot move a row backwards.
//! The laws at the end state what that buys: the stored coordinate is the
//! maximum over the observed events, applying a batch twice changes
//! nothing, and a batch without key conflicts yields the same state in
//! any order.

use vstd::prelude::*;

use crate::models::coord_lt;

verus! {

/// Insert-or-merge of one row: the first row with the same key is
/// merged, a missing key is appended.
pub open spec fn upsert_row<R, K>(
    rows: Seq<R>,
    row: R,
    key: spec_fn(R) -> K,
    merge: spec_fn(R, R) -> R,
) -> Seq<R>
    decreases rows.len(),
{
    if rows.len() == 0 {
        seq![row]
    } else if key(rows[0]) == key(row) {
        seq![merge(rows[0], row)] + rows.skip(1)
    } else {
        seq![rows[0]] + upsert_row(rows.skip(1), row, key, merge)
    }
}

/// Folds a batch of rows into the table, in order.
pub open spec fn apply_rows<R, K>(
    rows: Seq<R>,
    events: Seq<R>,
    key: spec_fn(R) -> K,
    merge: spec_fn(R, R) -> R,
) -> Seq<R>
    decreases events.len(),
{
    if events.len() == 0 {
        rows
    } else {
        apply_rows(upsert_row(rows, events[0], key, merge), events.skip(1), key, merge)
    }
}

/// Folding one more event equals upserting it into the fold so far.
pub proof fn lemma_apply_rows_push<R, K>(
    rows: Seq<R>,
    events: Seq<R>,
    e: R,
    key: spec_fn(R) -> K,
    merge: spec_fn(R, R) -> R,
)
    ensures
        apply_rows(rows, events.push(e), key, merge) == upsert_row(
            apply_rows(rows, events, key, merge),
            e,
            key,
            merge,
        ),
    decreases events.len(),
{
    if events.len() == 0 {
        assert(events.push(e).len() == 1);
        assert(events.push(e)[0] == e);
        assert(events.push(e).skip(1) =~= Seq::<R>::empty());
        assert(apply_rows(rows, events.push(e), key, merge) == apply_rows(
            upsert_row(rows, e, key, merge),
            events.push(e).skip(1),
            key,
            merge,
        ));
        assert(apply_rows(upsert_row(rows, e, key, merge), events.push(e).skip(1), key, merge)
            == upsert_row(rows, e, key, merge));
        assert(apply_rows(rows, events, key, merge) == rows);
    } else {
        let stepped = upsert_row(rows, events[0], key, merge);
        let tail = events.skip(1).push(e);
        assert(events.push(e)[0] == events[0]);
        assert(events.push(e).skip(1) =~= tail);
        assert(apply_rows(rows, events.push(e), key, merge) == apply_rows(
            stepped,
            tail,
            key,
            merge,
        ));
        lemma_apply_rows_push(stepped, events.skip(1), e, key, merge);
        assert(apply_rows(rows, events, key, merge) == apply_rows(
            stepped,
            events.skip(1),
            key,
            merge,
        ));
    }
}

/// The first row with this key, if any.
pub open spec fn row_for<R, K>(rows: Seq<R>, k: K, key: spec_fn(R) -> K) -> Option<R>
    decreases rows.len(),
{
    if rows.len() == 0 {
        Option::None
    } else if key(rows[0]) == k {
        Option::Some(rows[0])
    } else {
        row_for(rows.skip(1), k, key)
    }
}

/// Every key occurs at most once.
pub open spec fn distinct_keys<R, K>(rows: Seq<R>, key: spec_fn(R) -> K) -> bool {
    forall|i: int, j: int|
        0 <= i < j < rows.len() ==> key(#[trigger] rows[i]) != key(#[trigger] rows[j])
}

/// What every table's merge satisfies: it keeps the key, the stored
/// coordinate becomes the larger of the two, and an incoming row that is
/// not strictly newer changes nothing.
pub open spec fn merge_is_phase_upsert<R, K>(
    key: spec_fn(R) -> K,
    coord: spec_fn(R) -> (i64, i64),
    merge: spec_fn(R, R) -> R,
) -> bool {
    forall|cur: R, new: R|
        key(cur) == key(new) ==> {
            &&& key(#[trigger] merge(cur, new)) == key(cur)
            &&& coord(merge(cur, new)) == (if coord_lt(coord(cur), coord(new)) {
                coord(new)
            } else {
                coord(cur)
            })
            &&& (!coord_lt(coord(cur), coord(new)) ==> merge(cur, new) == cur)
        }
}

/// How one upsert changes a lookup: the touched key is inserted or
/// merged, every other key is untouched.
pub proof fn lemma_upsert_row_for<R, K>(
    rows: Seq<R>,
    row: R,
    key: spec_fn(R) -> K,
    merge: spec_fn(R, R) -> R,
    k: K,
)
    requires
        forall|cur: R, new: R|
            key(cur) == key(new) ==> key(#[trigger] merge(cur, new)) == key(cur),
    ensures
        row_for(upsert_row(rows, row, key, merge), k, key) == (if k == key(row) {
            match row_for(rows, k, key) {
                Option::None => Option::Some(row),
                Option::Some(c) => Option::Some(merge(c, row)),
            }
        } else {
            row_for(rows, k, key)
        }),
    decreases rows.len(),
{
    let up = upsert_row(rows, row, key, merge);
    if rows.len() == 0 {
        assert(up == seq![row]);
        assert(up.len() == 1 && up[0] == row);
        assert(up.skip(1) =~= Seq::<R>::empty());
        assert(row_for(rows, k, key) is None);
        if k == key(row) {
            assert(row_for(up, k, key) == Option::Some(row));
        } else {
            assert(row_for(up, k, key) == row_for(up.skip(1), k, key));
            assert(row_for(up.skip(1), k, key) is None);
        }
    } else if key(rows[0]) == key(row) {
        assert(up == seq![merge(rows[0], row)] + rows.skip(1));
        assert(up.len() == rows.len() && up[0] == merge(rows[0], row));
        assert(up.skip(1) =~= rows.skip(1));
        assert(key(up[0]) == key(rows[0]));
        if k == key(row) {
            assert(row_for(up, k, key) == Option::Some(merge(rows[0], row)));
            assert(row_for(rows, k, key) == Option::Some(rows[0]));
        } else {
            assert(row_for(up, k, key) == row_for(up.skip(1), k, key));
            assert(row_for(rows, k, key) == row_for(rows.skip(1), k, key));
        }
    } else {
        let tail = upsert_row(rows.skip(1), row, key, merge);
        assert(up == seq![rows[0]] + tail);
        assert(up.len() == tail.len() + 1 && up[0] == rows[0]);
        assert(up.skip(1) =~= tail);
        lemma_upsert_row_for(rows.skip(1), row, key, merge, k);
        if k == key(rows[0]) {
            assert(row_for(up, k, key) == Option::Some(rows[0]));
            assert(row_for(rows, k, key) == Option::Some(rows[0]));
        } else {
            assert(row_for(up, k, key) == row_for(tail, k, key));
            assert(row_for(rows, k, key) == row_for(rows.skip(1), k, key));
        }
    }
}

/// An upsert at the first matching index is an update of that index.
pub proof fn lemma_upsert_match_at<R, K>(
    rows: Seq<R>,
    row: R,
    key: spec_fn(R) -> K,
    merge: spec_fn(R, R) -> R,
    i: int,
)
    requires
        0 <= i < rows.len(),
        key(rows[i]) == key(row),
        forall|j: int| 0 <= j < i ==> key(#[trigger] rows[j]) != key(row),
    ensures
        upsert_row(rows, row, key, merge) == rows.update(i, merge(rows[i], row)),
    decreases i,
{
    if i == 0 {
        assert(upsert_row(rows, row, key, merge) =~= rows.update(0, merge(rows[0], row)));
    } else {
        assert(key(rows[0]) != key(row));
        assert(rows.skip(1)[i - 1] == rows[i]);
        assert(forall|j: int| 0 <= j < i - 1 ==> key(#[trigger] rows.skip(1)[j]) != key(row));
        lemma_upsert_match_at(rows.skip(1), row, key, merge, i - 1);
        assert(upsert_row(rows, row, key, merge) == seq![rows[0]] + rows.skip(1).update(
            i - 1,
            merge(rows[i], row),
        ));
        assert(seq![rows[0]] + rows.skip(1).update(i - 1, merge(rows[i], row)) =~= rows.update(
            i,
            merge(rows[i], row),
        ));
    }
}

/// An upsert with no matching key appends the row.
pub proof fn lemma_upsert_no_match<R, K>(
    rows: Seq<R>,
    row: R,
    key: spec_fn(R) -> K,
    merge: spec_fn(R, R) -> R,
)
    requires
        forall|j: int| 0 <= j < rows.len() ==> key(#[trigger] rows[j]) != key(row),
    ensures
        upsert_row(rows, row, key, merge) == rows.push(row),
    decreases rows.len(),
{
    if rows.len() == 0 {
        assert(upsert_row(rows, row, key, merge) =~= rows.push(row));
    } else {
        assert(forall|j: int| 0 <= j < rows.skip(1).len() ==> key(#[trigger] rows.skip(1)[j]) != key(row));
        lemma_upsert_no_match(rows.skip(1), row, key, merge);
        assert(seq![rows[0]] + rows.skip(1).push(row) =~= rows.push(row));
    }
}

/// Upserts keep the keys distinct.
pub proof fn lemma_upsert_distinct<R, K>(
    rows: Seq<R>,
    row: R,
    key: spec_fn(R) -> K,
    merge: spec_fn(R, R) -> R,
)
    requires
        distinct_keys(rows, key),
        forall|cur: R, new: R|
            key(cur) == key(new) ==> key(#[trigger] merge(cur, new)) == key(cur),
    ensures
        distinct_keys(upsert_row(rows, row, key, merge), key),
    decreases rows.len(),
{
    if rows.len() == 0 {
    } else if key(rows[0]) == key(row) {
        let up = upsert_row(rows, row, key, merge);
        assert(up == seq![merge(rows[0], row)] + rows.skip(1));
        assert forall|i: int, j: int| 0 <= i < j < up.len() implies key(#[trigger] up[i]) != key(
            #[trigger] up[j],
        ) by {
            if i == 0 {
                assert(up[j] == rows[j]);
                assert(key(up[0]) == key(rows[0]));
            } else {
                assert(up[i] == rows[i] && up[j] == rows[j]);
            }
        }
    } else {
        assert(forall|i: int, j: int|
            0 <= i < j < rows.skip(1).len() ==> key(#[trigger] rows.skip(1)[i]) != key(
                #[trigger] rows.skip(1)[j],
            ));
        lemma_upsert_distinct(rows.skip(1), row, key, merge);
        let up = upsert_row(rows, row, key, merge);
        let tail = upsert_row(rows.skip(1), row, key, merge);
        assert(up == seq![rows[0]] + tail);
        assert forall|i: int, j: int| 0 <= i < j < up.len() implies key(#[trigger] up[i]) != key(
            #[trigger] up[j],
        ) by {
            if i == 0 {
                assert(up[j] == tail[j - 1]);
                lemma_upsert_row_for(rows.skip(1), row, key, merge, key(tail[j - 1]));
                lemma_row_for_key_bound(rows.skip(1), row, key, merge, j - 1);
            } else {
                assert(up[i] == tail[i - 1] && up[j] == tail[j - 1]);
            }
        }
    }
}

/// Every key in an upsert's result is an old key or the new row's key.
proof fn lemma_row_for_key_bound<R, K>(
    rows: Seq<R>,
    row: R,
    key: spec_fn(R) -> K,
    merge: spec_fn(R, R) -> R,
    i: int,
)
    requires
        forall|cur: R, new: R|
            key(cur) == key(new) ==> key(#[trigger] merge(cur, new)) == key(cur),
        0 <= i < upsert_row(rows, row, key, merge).len(),
    ensures
        key(upsert_row(rows, row, key, merge)[i]) == key(row) || exists|j: int|
            0 <= j < rows.len() && key(#[trigger] rows[j]) == key(
                upsert_row(rows, row, key, merge)[i],
            ),
    decreases rows.len(),
{
    if rows.len() == 0 {
    } else if key(rows[0]) == key(row) {
        if i > 0 {
            assert(upsert_row(rows, row, key, merge)[i] == rows.skip(1)[i - 1]);
            assert(rows.skip(1)[i - 1] == rows[i]);
        }
    } else {
        if i > 0 {
            assert(upsert_row(rows, row, key, merge)[i] == upsert_row(
                rows.skip(1),
                row,
                key,
                merge,
            )[i - 1]);
            lemma_row_for_key_bound(rows.skip(1), row, key, merge, i - 1);
            if exists|j: int|
                0 <= j < rows.skip(1).len() && key(#[trigger] rows.skip(1)[j]) == key(
                    upsert_row(rows.skip(1), row, key, merge)[i - 1],
                ) {
                let j = choose|j: int|
                    0 <= j < rows.skip(1).len() && key(#[trigger] rows.skip(1)[j]) == key(
                        upsert_row(rows.skip(1), row, key, merge)[i - 1],
                    );
                assert(rows.skip(1)[j] == rows[j + 1]);
            }
        }
    }
}

/// Folding a batch keeps the keys distinct.
pub proof fn lemma_apply_rows_distinct<R, K>(
    rows: Seq<R>,
    events: Seq<R>,
    key: spec_fn(R) -> K,
    merge: spec_fn(R, R) -> R,
)
    requires
        distinct_keys(rows, key),
        forall|cur: R, new: R|
            key(cur) == key(new) ==> key(#[trigger] merge(cur, new)) == key(cur),
    ensures
        distinct_keys(apply_rows(rows, events, key, merge), key),
    decreases events.len(),
{
    if events.len() == 0 {
    } else {
        lemma_upsert_distinct(rows, events[0], key, merge);
        lemma_apply_rows_distinct(upsert_row(rows, events[0], key, merge), events.skip(1), key, merge);
    }
}

/// After a batch is applied, the stored coordinate of each key is the
/// maximum over its prior value and every event for that key, and a key
/// is present exactly when it was present before or an event carries it.
pub proof fn lemma_apply_coord_is_max<R, K>(
    rows: Seq<R>,
    events: Seq<R>,
    key: spec_fn(R) -> K,
    coord: spec_fn(R) -> (i64, i64),
    merge: spec_fn(R, R) -> R,
    k: K,
)
    requires
        merge_is_phase_upsert(key, coord, merge),
    ensures
        row_for(apply_rows(rows, events, key, merge), k, key) is Some <==> (row_for(rows, k, key)
            is Some || exists|i: int| 0 <= i < events.len() && key(#[trigger] events[i]) == k),
        row_for(apply_rows(rows, events, key, merge), k, key) matches Option::Some(r) ==> forall|
            i: int,
        |
            0 <= i < events.len() && key(#[trigger] events[i]) == k ==> !coord_lt(
                coord(r),
                coord(events[i]),
            ),
        row_for(apply_rows(rows, events, key, merge), k, key) matches Option::Some(r) ==> (
        row_for(rows, k, key) matches Option::Some(c) ==> !coord_lt(coord(r), coord(c))),
        row_for(apply_rows(rows, events, key, merge), k, key) matches Option::Some(r) ==> ((
        row_for(rows, k, key) matches Option::Some(c) && coord(r) == coord(c)) || exists|i: int|
            0 <= i < events.len() && key(#[trigger] events[i]) == k && coord(r) == coord(
                events[i],
            )),
    decreases events.len(),
{
    if events.len() == 0 {
    } else {
        let rows1 = upsert_row(rows, events[0], key, merge);
        let rest = events.skip(1);
        let result = apply_rows(rows, events, key, merge);
        assert(result == apply_rows(rows1, rest, key, merge));
        lemma_upsert_row_for(rows, events[0], key, merge, k);
        lemma_apply_coord_is_max(rows1, rest, key, coord, merge, k);
        assert(rest.len() == events.len() - 1);
        assert(forall|i: int| 0 <= i < rest.len() ==> #[trigger] rest[i] == events[i + 1]);
        // Presence of an event with this key carries over between the
        // whole batch and its tail plus head.
        assert((exists|i: int| 0 <= i < events.len() && key(#[trigger] events[i]) == k) <==> (k
            == key(events[0]) || exists|i: int|
            0 <= i < rest.len() && key(#[trigger] rest[i]) == k)) by {
            if exists|i: int| 0 <= i < events.len() && key(#[trigger] events[i]) == k {
                let i = choose|i: int| 0 <= i < events.len() && key(#[trigger] events[i]) == k;
                if i > 0 {
                    assert(rest[i - 1] == events[i]);
                    assert(key(rest[i - 1]) == k);
                }
            }
            if exists|i: int| 0 <= i < rest.len() && key(#[trigger] rest[i]) == k {
                let i = choose|i: int| 0 <= i < rest.len() && key(#[trigger] rest[i]) == k;
                assert(key(events[i + 1]) == k);
            }
        }
        if k == key(events[0]) {
            let e0 = events[0];
            let r1 = row_for(rows1, k, key)->0;
            match row_for(rows, k, key) {
                Option::None => {
                    assert(row_for(rows1, k, key) == Option::Some(e0));
                    assert(!coord_lt(coord(r1), coord(e0)));
                },
                Option::Some(c) => {
                    lemma_row_for_finds_first(rows, k, key);
                    assert(key(c) == key(e0));
                    assert(row_for(rows1, k, key) == Option::Some(merge(c, e0)));
                    assert(!coord_lt(coord(r1), coord(e0)));
                    assert(!coord_lt(coord(r1), coord(c)));
                    assert(coord(r1) == coord(c) || coord(r1) == coord(e0));
                },
            }
            if row_for(result, k, key) is Some {
                let r = row_for(result, k, key)->0;
                // The final coordinate dominates the coordinate after the
                // first upsert, which dominates the head event's.
                assert(!coord_lt(coord(r), coord(r1)));
                assert(!coord_lt(coord(r), coord(e0)));
                assert forall|i: int|
                    0 <= i < events.len() && key(#[trigger] events[i]) == k implies !coord_lt(
                    coord(r),
                    coord(events[i]),
                ) by {
                    if i > 0 {
                        assert(rest[i - 1] == events[i]);
                    }
                }
                // The final coordinate is the prior row's or some event's.
                if (row_for(rows1, k, key) matches Option::Some(c1) && coord(r) == coord(c1)) {
                    assert((row_for(rows, k, key) matches Option::Some(c) && coord(r) == coord(c))
                        || coord(r) == coord(e0));
                } else {
                    let i = choose|i: int|
                        0 <= i < rest.len() && key(#[trigger] rest[i]) == k && coord(r) == coord(
                            rest[i],
                        );
                    assert(events[i + 1] == rest[i]);
                }
            }
        } else {
            assert(row_for(rows1, k, key) == row_for(rows, k, key));
            if row_for(result, k, key) is Some {
                let r = row_for(result, k, key)->0;
                assert forall|i: int|
                    0 <= i < events.len() && key(#[trigger] events[i]) == k implies !coord_lt(
                    coord(r),
                    coord(events[i]),
                ) by {
                    assert(i > 0);
                    assert(rest[i - 1] == events[i]);
                }
                if !(row_for(rows, k, key) matches Option::Some(c) && coord(r) == coord(c)) {
                    let i = choose|i: int|
                        0 <= i < rest.len() && key(#[trigger] rest[i]) == k && coord(r) == coord(
                            rest[i],
                        );
                    assert(events[i + 1] == rest[i]);
                }
            }
        }
    }
}

/// Concatenated batches fold like sequential batches.
pub proof fn lemma_apply_append<R, K>(
    rows: Seq<R>,
    a: Seq<R>,
    b: Seq<R>,
    key: spec_fn(R) -> K,
    merge: spec_fn(R, R) -> R,
)
    ensures
        apply_rows(rows, a + b, key, merge) == apply_rows(
            apply_rows(rows, a, key, merge),
            b,
            key,
            merge,
        ),
    decreases b.len(),
{
    if b.len() == 0 {
        assert(a + b =~= a);
    } else {
        let front = b.drop_last();
        assert(a + b =~= (a + front).push(b.last()));
        assert(b =~= front.push(b.last()));
        lemma_apply_append(rows, a, front, key, merge);
        lemma_apply_rows_push(rows, a + front, b.last(), key, merge);
        lemma_apply_rows_push(apply_rows(rows, a, key, merge), front, b.last(), key, merge);
    }
}

/// A batch only adds keys: a key stored before is still stored after,
/// with any coordinate that every merge of the table leaves alone
/// unchanged.
pub proof fn lemma_apply_preserves_coord<R, K>(
    rows: Seq<R>,
    events: Seq<R>,
    key: spec_fn(R) -> K,
    merge: spec_fn(R, R) -> R,
    pcoord: spec_fn(R) -> (i64, i64),
    k: K,
)
    requires
        forall|cur: R, new: R|
            key(cur) == key(new) ==> (key(#[trigger] merge(cur, new)) == key(cur) && pcoord(
                merge(cur, new),
            ) == pcoord(cur)),
    ensures
        row_for(rows, k, key) matches Option::Some(c) ==> (row_for(
            apply_rows(rows, events, key, merge),
            k,
            key,
        ) matches Option::Some(r) && pcoord(r) == pcoord(c)),
    decreases events.len(),
{
    if events.len() == 0 {
    } else {
        let rows1 = upsert_row(rows, events[0], key, merge);
        lemma_upsert_row_for(rows, events[0], key, merge, k);
        lemma_apply_preserves_coord(rows1, events.skip(1), key, merge, pcoord, k);
        if row_for(rows, k, key) is Some {
            let c = row_for(rows, k, key)->0;
            if k == key(events[0]) {
                lemma_row_for_finds_first(rows, k, key);
                assert(key(c) == key(events[0]));
                assert(row_for(rows1, k, key) == Option::Some(merge(c, events[0])));
                assert(pcoord(merge(c, events[0])) == pcoord(c));
            } else {
                assert(row_for(rows1, k, key) == row_for(rows, k, key));
            }
        }
    }
}

/// Applying events whose keys are all already stored, with a merge that
/// always keeps the stored row, changes nothing: the first insert wins.
pub proof fn lemma_apply_noop_keep<R, K>(
    rows: Seq<R>,
    events: Seq<R>,
    key: spec_fn(R) -> K,
    merge: spec_fn(R, R) -> R,
)
    requires
        forall|cur: R, new: R| key(cur) == key(new) ==> #[trigger] merge(cur, new) == cur,
        forall|i: int| 0 <= i < events.len() ==> row_for(rows, key(#[trigger] events[i]), key) is Some,
    ensures
        apply_rows(rows, events, key, merge) == rows,
    decreases events.len(),
{
    if events.len() == 0 {
    } else {
        let e = events[0];
        lemma_row_for_finds_first(rows, key(e), key);
        let i = choose|i: int|
            0 <= i < rows.len() && key(#[trigger] rows[i]) == key(e) && rows[i] == row_for(
                rows,
                key(e),
                key,
            )->0 && (forall|j: int| 0 <= j < i ==> key(#[trigger] rows[j]) != key(e));
        lemma_upsert_match_at(rows, e, key, merge, i);
        assert(merge(rows[i], e) == rows[i]);
        assert(rows.update(i, rows[i]) =~= rows);
        assert(forall|j: int|
            0 <= j < events.skip(1).len() ==> #[trigger] events.skip(1)[j] == events[j + 1]);
        lemma_apply_noop_keep(rows, events.skip(1), key, merge);
    }
}

/// Applying events whose keys are all already stored with at least their
/// coordinates changes nothing.
pub proof fn lemma_apply_noop<R, K>(
    rows: Seq<R>,
    events: Seq<R>,
    key: spec_fn(R) -> K,
    coord: spec_fn(R) -> (i64, i64),
    merge: spec_fn(R, R) -> R,
)
    requires
        merge_is_phase_upsert(key, coord, merge),
        forall|i: int|
            0 <= i < events.len() ==> (row_for(rows, key(#[trigger] events[i]), key) matches
                Option::Some(c) && !coord_lt(coord(c), coord(events[i]))),
    ensures
        apply_rows(rows, events, key, merge) == rows,
    decreases events.len(),
{
    if events.len() == 0 {
    } else {
        let e = events[0];
        let c = row_for(rows, key(e), key)->0;
        lemma_row_for_finds_first(rows, key(e), key);
        let i = choose|i: int|
            0 <= i < rows.len() && key(#[trigger] rows[i]) == key(e) && rows[i] == c && (forall|
                j: int,
            | 0 <= j < i ==> key(#[trigger] rows[j]) != key(e));
        lemma_upsert_match_at(rows, e, key, merge, i);
        assert(merge(c, e) == c);
        assert(rows.update(i, c) =~= rows);
        assert(forall|j: int|
            0 <= j < events.skip(1).len() ==> #[trigger] events.skip(1)[j] == events[j + 1]);
        lemma_apply_noop(rows, events.skip(1), key, coord, merge);
    }
}

/// A successful lookup names a first matching index.
pub proof fn lemma_row_for_finds_first<R, K>(rows: Seq<R>, k: K, key: spec_fn(R) -> K)
    requires
        row_for(rows, k, key) is Some,
    ensures
        exists|i: int|
            0 <= i < rows.len() && key(#[trigger] rows[i]) == k && rows[i] == row_for(
                rows,
                k,
                key,
            )->0 && (forall|j: int| 0 <= j < i ==> key(#[trigger] rows[j]) != k),
    decreases rows.len(),
{
    if rows.len() == 0 {
    } else if key(rows[0]) == k {
        assert(0 <= 0 < rows.len() && key(rows[0]) == k && rows[0] == row_for(rows, k, key)->0 && (
        forall|j: int| 0 <= j < 0 ==> key(#[trigger] rows[j]) != k));
    } else {
        lemma_row_for_finds_first(rows.skip(1), k, key);
        let i = choose|i: int|
            0 <= i < rows.skip(1).len() && key(#[trigger] rows.skip(1)[i]) == k && rows.skip(1)[i]
                == row_for(rows.skip(1), k, key)->0 && (forall|j: int|
                0 <= j < i ==> key(#[trigger] rows.skip(1)[j]) != k);
        assert(rows.skip(1)[i] == rows[i + 1]);
        assert forall|j: int| 0 <= j < i + 1 implies key(#[trigger] rows[j]) != k by {
            if j > 0 {
                assert(rows[j] == rows.skip(1)[j - 1]);
            }
        }
        assert(0 <= i + 1 < rows.len() && key(rows[i + 1]) == k && rows[i + 1] == row_for(
            rows,
            k,
            key,
        )->0);
    }
}

/// Applying the same batch twice leaves the store exactly as one
/// application left it: the upsert protocol is idempotent under replay.
pub proof fn lemma_apply_idempotent<R, K>(
    rows: Seq<R>,
    events: Seq<R>,
    key: spec_fn(R) -> K,
    coord: spec_fn(R) -> (i64, i64),
    merge: spec_fn(R, R) -> R,
)
    requires
        merge_is_phase_upsert(key, coord, merge),
    ensures
        apply_rows(apply_rows(rows, events, key, merge), events, key, merge) == apply_rows(
            rows,
            events,
            key,
            merge,
        ),
{
    let rows2 = apply_rows(rows, events, key, merge);
    assert forall|i: int| 0 <= i < events.len() implies (row_for(
        rows2,
        key(#[trigger] events[i]),
        key,
    ) matches Option::Some(c) && !coord_lt(coord(c), coord(events[i]))) by {
        lemma_apply_coord_is_max(rows, events, key, coord, merge, key(events[i]));
    }
    lemma_apply_noop(rows2, events, key, coord, merge);
}

/// For a batch without key conflicts, the final row of each key does not
/// depend on the order of the batch: it is the old row merged with the
/// key's one event, or that event inserted whole.
pub proof fn lemma_apply_distinct_batch<R, K>(
    rows: Seq<R>,
    events: Seq<R>,
    key: spec_fn(R) -> K,
    merge: spec_fn(R, R) -> R,
    k: K,
)
    requires
        distinct_keys(events, key),
        forall|cur: R, new: R|
            key(cur) == key(new) ==> key(#[trigger] merge(cur, new)) == key(cur),
    ensures
        forall|i: int|
            0 <= i < events.len() && key(#[trigger] events[i]) == k ==> row_for(
                apply_rows(rows, events, key, merge),
                k,
                key,
            ) == (match row_for(rows, k, key) {
                Option::None => Option::Some(events[i]),
                Option::Some(c) => Option::Some(merge(c, events[i])),
            }),
        (forall|i: int| 0 <= i < events.len() ==> key(#[trigger] events[i]) != k) ==> row_for(
            apply_rows(rows, events, key, merge),
            k,
            key,
        ) == row_for(rows, k, key),
    decreases events.len(),
{
    if events.len() == 0 {
    } else {
        let rows1 = upsert_row(rows, events[0], key, merge);
        let rest = events.skip(1);
        let result = apply_rows(rows, events, key, merge);
        assert(result == apply_rows(rows1, rest, key, merge));
        lemma_upsert_row_for(rows, events[0], key, merge, k);
        assert(forall|i: int| 0 <= i < rest.len() ==> #[trigger] rest[i] == events[i + 1]);
        assert(forall|i: int, j: int|
            0 <= i < j < rest.len() ==> key(#[trigger] rest[i]) != key(#[trigger] rest[j]));
        lemma_apply_distinct_batch(rows1, rest, key, merge, k);
        if k == key(events[0]) {
            assert forall|i: int| 0 <= i < rest.len() implies key(#[trigger] rest[i]) != k by {
                assert(rest[i] == events[i + 1]);
                assert(key(events[0]) != key(events[i + 1]));
            }
            assert(row_for(result, k, key) == row_for(rows1, k, key));
            assert forall|i: int|
                0 <= i < events.len() && key(#[trigger] events[i]) == k implies row_for(
                result,
                k,
                key,
            ) == (match row_for(rows, k, key) {
                Option::None => Option::Some(events[i]),
                Option::Some(c) => Option::Some(merge(c, events[i])),
            }) by {
                if i > 0 {
                    assert(rest[i - 1] == events[i]);
                    assert(key(rest[i - 1]) != k);
                }
                assert(i == 0);
            }
        } else {
            assert(row_for(rows1, k, key) == row_for(rows, k, key));
            assert forall|i: int|
                0 <= i < events.len() && key(#[trigger] events[i]) == k implies row_for(
                result,
                k,
                key,
            ) == (match row_for(rows, k, key) {
                Option::None => Option::Some(events[i]),
                Option::Some(c) => Option::Some(merge(c, events[i])),
            }) by {
                assert(i > 0);
                assert(rest[i - 1] == events[i]);
                assert(key(rest[i - 1]) == k);
            }
            if forall|i: int| 0 <= i < events.len() ==> key(#[trigger] events[i]) != k {
                assert forall|i: int| 0 <= i < rest.len() implies key(#[trigger] rest[i]) != k by {
                    assert(rest[i] == events[i + 1]);
                }
            }
        }
    }
}

/// A nonempty batch with pairwise distinct coordinates has one event
/// whose coordinate strictly dominates every other; this names it.
pub proof fn lemma_max_coord_index<R>(events: Seq<R>, coord: spec_fn(R) -> (i64, i64)) -> (m: int)
    requires
        events.len() > 0,
        forall|i: int, j: int|
            0 <= i < j < events.len() ==> coord(#[trigger] events[i]) != coord(
                #[trigger] events[j],
            ),
    ensures
        0 <= m < events.len(),
        forall|i: int|
            0 <= i < events.len() && i != m ==> coord_lt(
                coord(#[trigger] events[i]),
                coord(events[m]),
            ),
    decreases events.len(),
{
    if events.len() == 1 {
        0
    } else {
        let front = events.drop_last();
        assert(forall|i: int| 0 <= i < front.len() ==> #[trigger] front[i] == events[i]);
        let m = lemma_max_coord_index(front, coord);
        let last = events.len() - 1;
        if coord_lt(coord(events[m]), coord(events[last])) {
            assert forall|i: int| 0 <= i < events.len() && i != last implies coord_lt(
                coord(#[trigger] events[i]),
                coord(events[last]),
            ) by {
                if i != m {
                    assert(coord_lt(coord(front[i]), coord(front[m])));
                }
            }
            last
        } else {
            assert(coord(events[m]) != coord(events[last]));
            assert(coord_lt(coord(events[last]), coord(events[m])));
            assert forall|i: int| 0 <= i < events.len() && i != m implies coord_lt(
                coord(#[trigger] events[i]),
                coord(events[m]),
            ) by {
                if i < last {
                    assert(coord_lt(coord(front[i]), coord(front[m])));
                }
            }
            m
        }
    }
}

/// A batch of events for one key that the table already holds resolves
/// to a single merge with the batch's newest event: the intermediate
/// merges are absorbed by the last, dominating one.
pub proof fn lemma_apply_same_key_resolves_to_max<R, K>(
    rows: Seq<R>,
    events: Seq<R>,
    key: spec_fn(R) -> K,
    coord: spec_fn(R) -> (i64, i64),
    merge: spec_fn(R, R) -> R,
    k: K,
    m: int,
)
    requires
        merge_is_phase_upsert(key, coord, merge),
        forall|c: R, i: int, j: int|
            #![trigger merge(merge(c, events[i]), events[j])]
            0 <= i < events.len() && 0 <= j < events.len() && key(c) == key(events[i]) && key(
                events[i],
            ) == key(events[j]) && coord_lt(coord(events[i]), coord(events[j])) ==> merge(
                merge(c, events[i]),
                events[j],
            ) == merge(c, events[j]),
        forall|i: int| 0 <= i < events.len() ==> key(#[trigger] events[i]) == k,
        0 <= m < events.len(),
        forall|i: int|
            0 <= i < events.len() && i != m ==> coord_lt(
                coord(#[trigger] events[i]),
                coord(events[m]),
            ),
        row_for(rows, k, key) is Some,
    ensures
        row_for(apply_rows(rows, events, key, merge), k, key) == Option::Some(
            merge(row_for(rows, k, key)->0, events[m]),
        ),
    decreases events.len(),
{
    let c = row_for(rows, k, key)->0;
    lemma_row_for_finds_first(rows, k, key);
    assert(key(c) == k);
    let e0 = events[0];
    let rows1 = upsert_row(rows, e0, key, merge);
    lemma_upsert_row_for(rows, e0, key, merge, k);
    assert(row_for(rows1, k, key) == Option::Some(merge(c, e0)));
    let rest = events.skip(1);
    assert(forall|i: int| 0 <= i < rest.len() ==> #[trigger] rest[i] == events[i + 1]);
    let result = apply_rows(rows, events, key, merge);
    assert(result == apply_rows(rows1, rest, key, merge));
    if m == 0 {
        // The head already dominates; every later event is stale against
        // the merged row.
        assert forall|i: int| 0 <= i < rest.len() implies (row_for(
            rows1,
            key(#[trigger] rest[i]),
            key,
        ) matches Option::Some(cur) && !coord_lt(coord(cur), coord(rest[i]))) by {
            assert(rest[i] == events[i + 1]);
            assert(key(rest[i]) == k);
            assert(coord_lt(coord(events[i + 1]), coord(e0)));
            assert(coord(merge(c, e0)) == (if coord_lt(coord(c), coord(e0)) {
                coord(e0)
            } else {
                coord(c)
            }));
        }
        lemma_apply_noop(rows1, rest, key, coord, merge);
        assert(result == rows1);
    } else {
        assert forall|cc: R, i: int, j: int|
            #![trigger merge(merge(cc, rest[i]), rest[j])]
            0 <= i < rest.len() && 0 <= j < rest.len() && key(cc) == key(rest[i]) && key(rest[i])
                == key(rest[j]) && coord_lt(coord(rest[i]), coord(rest[j])) implies merge(
            merge(cc, rest[i]),
            rest[j],
        ) == merge(cc, rest[j]) by {
            assert(rest[i] == events[i + 1] && rest[j] == events[j + 1]);
            assert(merge(merge(cc, events[i + 1]), events[j + 1]) == merge(cc, events[j + 1]));
        }
        lemma_apply_same_key_resolves_to_max(rows1, rest, key, coord, merge, k, m - 1);
        assert(rest[m - 1] == events[m]);
        assert(row_for(result, k, key) == Option::Some(merge(merge(c, e0), events[m])));
        assert(coord_lt(coord(e0), coord(events[m])));
        assert(merge(merge(c, e0), events[m]) == merge(c, events[m]));
    }
}

/// Applying one batch of events for a key the table already holds, and
/// then a permutation of that batch, gives the same stored row, as long
/// as the events' coordinates are pairwise distinct: either order
/// resolves to one merge with the dominating event.
pub proof fn lemma_apply_same_key_order_invariant<R, K>(
    rows: Seq<R>,
    events1: Seq<R>,
    events2: Seq<R>,
    key: spec_fn(R) -> K,
    coord: spec_fn(R) -> (i64, i64),
    merge: spec_fn(R, R) -> R,
    k: K,
)
    requires
        merge_is_phase_upsert(key, coord, merge),
        forall|c: R, i: int, j: int|
            #![trigger merge(merge(c, events1[i]), events1[j])]
            0 <= i < events1.len() && 0 <= j < events1.len() && key(c) == key(events1[i]) && key(
                events1[i],
            ) == key(events1[j]) && coord_lt(coord(events1[i]), coord(events1[j])) ==> merge(
                merge(c, events1[i]),
                events1[j],
            ) == merge(c, events1[j]),
        events1.to_multiset() == events2.to_multiset(),
        forall|i: int| 0 <= i < events1.len() ==> key(#[trigger] events1[i]) == k,
        forall|i: int| 0 <= i < events2.len() ==> key(#[trigger] events2[i]) == k,
        forall|i: int, j: int|
            0 <= i < j < events1.len() ==> coord(#[trigger] events1[i]) != coord(
                #[trigger] events1[j],
            ),
        forall|i: int, j: int|
            0 <= i < j < events2.len() ==> coord(#[trigger] events2[i]) != coord(
                #[trigger] events2[j],
            ),
        row_for(rows, k, key) is Some,
    ensures
        row_for(apply_rows(rows, events1, key, merge), k, key) == row_for(
            apply_rows(rows, events2, key, merge),
            k,
            key,
        ),
{
    broadcast use vstd::seq_lib::group_to_multiset_ensures;

    vstd::seq_lib::to_multiset_len(events1);
    vstd::seq_lib::to_multiset_len(events2);
    if events1.len() == 0 {
        assert(events2.len() == 0);
    } else {
        let m1 = lemma_max_coord_index(events1, coord);
        let e = events1[m1];
        lemma_apply_same_key_resolves_to_max(rows, events1, key, coord, merge, k, m1);
        assert(events2.len() == events1.len());
        assert(events1.contains(e));
        assert(events1.to_multiset().contains(e));
        assert(events2.to_multiset().contains(e));
        assert(events2.contains(e));
        let m2 = choose|j: int| 0 <= j < events2.len() && events2[j] == e;
        assert forall|i: int| 0 <= i < events2.len() && i != m2 implies coord_lt(
            coord(#[trigger] events2[i]),
            coord(events2[m2]),
        ) by {
            assert(events2.contains(events2[i]));
            assert(events2.to_multiset().contains(events2[i]));
            assert(events1.to_multiset().contains(events2[i]));
            assert(events1.contains(events2[i]));
            let ii = choose|ii: int| 0 <= ii < events1.len() && events1[ii] == events2[i];
            if ii == m1 {
                assert(coord(events2[i]) == coord(events2[m2]));
                assert(coord(events2[i]) != coord(events2[m2]));
            } else {
                assert(coord_lt(coord(events1[ii]), coord(e)));
            }
        }
        assert forall|c: R, i: int, j: int|
            #![trigger merge(merge(c, events2[i]), events2[j])]
            0 <= i < events2.len() && 0 <= j < events2.len() && key(c) == key(events2[i]) && key(
                events2[i],
            ) == key(events2[j]) && coord_lt(coord(events2[i]), coord(events2[j])) implies merge(
            merge(c, events2[i]),
            events2[j],
        ) == merge(c, events2[j]) by {
            assert(events2.contains(events2[i]));
            assert(events2.to_multiset().contains(events2[i]));
            assert(events1.to_multiset().contains(events2[i]));
            assert(events1.contains(events2[i]));
            assert(events2.contains(events2[j]));
            assert(events2.to_multiset().contains(events2[j]));
            assert(events1.to_multiset().contains(events2[j]));
            assert(events1.contains(events2[j]));
            let ii = choose|ii: int| 0 <= ii < events1.len() && events1[ii] == events2[i];
            let jj = choose|jj: int| 0 <= jj < events1.len() && events1[jj] == events2[j];
            assert(merge(merge(c, events1[ii]), events1[jj]) == merge(c, events1[jj]));
        }
        lemma_apply_same_key_resolves_to_max(rows, events2, key, coord, merge, k, m2);
    }
}

/// Applying one batch and then a permutation of it with distinct keys
/// gives, for every key, the same stored row: the store state is a
/// function of the batch's contents, not of its order.
pub proof fn lemma_apply_order_invariant<R, K>(
    rows: Seq<R>,
    events1: Seq<R>,
    events2: Seq<R>,
    key: spec_fn(R) -> K,
    merge: spec_fn(R, R) -> R,
    k: K,
)
    requires
        events1.to_multiset() == events2.to_multiset(),
        distinct_keys(events1, key),
        distinct_keys(events2, key),
        forall|cur: R, new: R|
            key(cur) == key(new) ==> key(#[trigger] merge(cur, new)) == key(cur),
    ensures
        row_for(apply_rows(rows, events1, key, merge), k, key) == row_for(
            apply_rows(rows, events2, key, merge),
            k,
            key,
        ),
{
    broadcast use vstd::seq_lib::group_to_multiset_ensures;

    lemma_apply_distinct_batch(rows, events1, key, merge, k);
    lemma_apply_distinct_batch(rows, events2, key, merge, k);
    if exists|i: int| 0 <= i < events1.len() && key(#[trigger] events1[i]) == k {
        let i = choose|i: int| 0 <= i < events1.len() && key(#[trigger] events1[i]) == k;
        assert(events1.contains(events1[i]));
        assert(events1.to_multiset().contains(events1[i]));
        assert(events2.to_multiset().contains(events1[i]));
        assert(events2.contains(events1[i]));
        let j = choose|j: int| 0 <= j < events2.len() && events2[j] == events1[i];
        assert(key(events2[j]) == k);
    } else {
        assert forall|j: int| 0 <= j < events2.len() implies key(#[trigger] events2[j]) != k by {
            assert(events2.contains(events2[j]));
            assert(events2.to_multiset().contains(events2[j]));
            assert(events1.to_multiset().contains(events2[j]));
            assert(events1.contains(events2[j]));
        }
    }
}

} // verus!
