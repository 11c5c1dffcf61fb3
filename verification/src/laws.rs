//! The store's guarantees, instantiated for the concrete tables.
//!
//! `projection` states the laws once, over any table whose merge has the
//! phase-upsert shape. Here each table's merge is shown to have that
//! shape, and the laws the pipeline leans on are restated for the rows
//! the store actually holds: the stored coordinate of a phase is the
//! maximum over the observed events, duplicate audit rows are ignored,
//! replaying a batch changes nothing, and a batch reaches the same state
//! in any order — for keys without conflicts directly, and for a stored
//! key hit repeatedly because the batch resolves to one merge with its
//! dominating event. Placed parts owe their lack of key conflicts to the
//! in-batch deduplication, shown conflict-free below; the remaining
//! order dependence is the first insert of a key the table has never
//! seen, whose non-phase fields come from whichever event arrives first.

use vstd::prelude::*;

use crate::models::{coord_lt, ActivityModel, CollectionBidModel, FilledCollectionBidModel, NftAskModel, NftBidModel};
use crate::projection::{
    apply_rows, distinct_keys, lemma_apply_append, lemma_apply_coord_is_max,
    lemma_apply_idempotent, lemma_apply_noop, lemma_apply_noop_keep,
    lemma_apply_order_invariant, lemma_apply_preserves_coord, lemma_row_for_finds_first,
    lemma_upsert_match_at, merge_is_phase_upsert, row_for, upsert_row,
};
use crate::extractor::ContractEvent;
use crate::marketplace_storer::{
    pair_firsts, pair_seconds, spec_dedup_ask_placed, spec_dedup_bid_placed,
    spec_dedup_collection_bid_placed, spec_part_ask_cancelled, spec_part_ask_filled,
    spec_part_ask_placed, spec_part_bid_cancelled, spec_part_bid_filled, spec_part_bid_placed,
    spec_part_collection_bid_cancelled, spec_part_collection_bid_filled,
    spec_part_collection_bid_placed, triple_firsts, triple_seconds, triple_thirds,
};
use crate::store::{
    activity_key, activity_merge, ask_cancelled_coord, ask_cancelled_merge, ask_filled_coord,
    ask_filled_merge, ask_key, ask_placed_coord, ask_placed_merge, bid_cancelled_coord,
    bid_cancelled_merge, bid_filled_coord, bid_filled_merge, bid_key, bid_placed_coord,
    bid_placed_merge, collection_bid_cancelled_coord, collection_bid_cancelled_merge,
    collection_bid_filled_merge, collection_bid_key, collection_bid_latest_filled_coord,
    collection_bid_placed_coord, collection_bid_placed_merge, filled_collection_bid_coord,
    filled_collection_bid_key, filled_collection_bid_merge,
};

verus! {

/// The ask table's placed merge has the phase-upsert shape: it keeps the
/// key, takes the larger placed coordinate, and ignores stale updates.
pub proof fn lemma_ask_placed_merge_shape()
    ensures
        merge_is_phase_upsert(ask_key(), ask_placed_coord(), ask_placed_merge()),
{
}

/// The ask table's filled merge has the phase-upsert shape.
pub proof fn lemma_ask_filled_merge_shape()
    ensures
        merge_is_phase_upsert(ask_key(), ask_filled_coord(), ask_filled_merge()),
{
}

/// The ask table's cancelled merge has the phase-upsert shape.
pub proof fn lemma_ask_cancelled_merge_shape()
    ensures
        merge_is_phase_upsert(ask_key(), ask_cancelled_coord(), ask_cancelled_merge()),
{
}

/// The bid table's placed merge has the phase-upsert shape.
pub proof fn lemma_bid_placed_merge_shape()
    ensures
        merge_is_phase_upsert(bid_key(), bid_placed_coord(), bid_placed_merge()),
{
}

/// The bid table's filled merge has the phase-upsert shape.
pub proof fn lemma_bid_filled_merge_shape()
    ensures
        merge_is_phase_upsert(bid_key(), bid_filled_coord(), bid_filled_merge()),
{
}

/// The bid table's cancelled merge has the phase-upsert shape.
pub proof fn lemma_bid_cancelled_merge_shape()
    ensures
        merge_is_phase_upsert(bid_key(), bid_cancelled_coord(), bid_cancelled_merge()),
{
}

/// The collection-bid table's placed merge has the phase-upsert shape.
pub proof fn lemma_collection_bid_placed_merge_shape()
    ensures
        merge_is_phase_upsert(
            collection_bid_key(),
            collection_bid_placed_coord(),
            collection_bid_placed_merge(),
        ),
{
}

/// The collection-bid table's latest-fill merge has the phase-upsert
/// shape.
pub proof fn lemma_collection_bid_filled_merge_shape()
    ensures
        merge_is_phase_upsert(
            collection_bid_key(),
            collection_bid_latest_filled_coord(),
            collection_bid_filled_merge(),
        ),
{
}

/// The collection-bid table's cancelled merge has the phase-upsert
/// shape.
pub proof fn lemma_collection_bid_cancelled_merge_shape()
    ensures
        merge_is_phase_upsert(
            collection_bid_key(),
            collection_bid_cancelled_coord(),
            collection_bid_cancelled_merge(),
        ),
{
}

/// The fill table's merge has the phase-upsert shape.
pub proof fn lemma_filled_collection_bid_merge_shape()
    ensures
        merge_is_phase_upsert(
            filled_collection_bid_key(),
            filled_collection_bid_coord(),
            filled_collection_bid_merge(),
        ),
{
}

/// For every ask key and the placed phase: after applying any sequence
/// of placed events in any order, the stored placed coordinate is the
/// maximum over the prior row and the events for that key; a key is
/// stored exactly when it was stored before or an event carries it.
pub proof fn lemma_ask_placed_coord_is_max(
    rows: Seq<NftAskModel>,
    events: Seq<NftAskModel>,
    k: Seq<char>,
)
    ensures
        row_for(apply_rows(rows, events, ask_key(), ask_placed_merge()), k, ask_key()) is Some
            <==> (row_for(rows, k, ask_key()) is Some || exists|i: int|
            0 <= i < events.len() && (#[trigger] events[i]).ask_obj_addr == k),
        row_for(apply_rows(rows, events, ask_key(), ask_placed_merge()), k, ask_key()) matches
            Option::Some(r) ==> forall|i: int|
            0 <= i < events.len() && (#[trigger] events[i]).ask_obj_addr == k ==> !coord_lt(
                r.placed_coord(),
                events[i].placed_coord(),
            ),
        row_for(apply_rows(rows, events, ask_key(), ask_placed_merge()), k, ask_key()) matches
            Option::Some(r) ==> (row_for(rows, k, ask_key()) matches Option::Some(c) ==> !coord_lt(
            r.placed_coord(),
            c.placed_coord(),
        )),
        row_for(apply_rows(rows, events, ask_key(), ask_placed_merge()), k, ask_key()) matches
            Option::Some(r) ==> ((row_for(rows, k, ask_key()) matches Option::Some(c)
            && r.placed_coord() == c.placed_coord()) || exists|i: int|
            0 <= i < events.len() && (#[trigger] events[i]).ask_obj_addr == k && r.placed_coord()
                == events[i].placed_coord()),
{
    lemma_ask_placed_merge_shape();
    lemma_apply_coord_is_max(rows, events, ask_key(), ask_placed_coord(), ask_placed_merge(), k);
}

/// For every ask key and the filled phase: the stored filled coordinate
/// is the maximum over the prior row and the events for that key.
pub proof fn lemma_ask_filled_coord_is_max(
    rows: Seq<NftAskModel>,
    events: Seq<NftAskModel>,
    k: Seq<char>,
)
    ensures
        row_for(apply_rows(rows, events, ask_key(), ask_filled_merge()), k, ask_key()) matches
            Option::Some(r) ==> forall|i: int|
            0 <= i < events.len() && (#[trigger] events[i]).ask_obj_addr == k ==> !coord_lt(
                r.filled_coord(),
                events[i].filled_coord(),
            ),
        row_for(apply_rows(rows, events, ask_key(), ask_filled_merge()), k, ask_key()) matches
            Option::Some(r) ==> (row_for(rows, k, ask_key()) matches Option::Some(c) ==> !coord_lt(
            r.filled_coord(),
            c.filled_coord(),
        )),
        row_for(apply_rows(rows, events, ask_key(), ask_filled_merge()), k, ask_key()) matches
            Option::Some(r) ==> ((row_for(rows, k, ask_key()) matches Option::Some(c)
            && r.filled_coord() == c.filled_coord()) || exists|i: int|
            0 <= i < events.len() && (#[trigger] events[i]).ask_obj_addr == k && r.filled_coord()
                == events[i].filled_coord()),
{
    lemma_ask_filled_merge_shape();
    lemma_apply_coord_is_max(rows, events, ask_key(), ask_filled_coord(), ask_filled_merge(), k);
}

/// For every ask key and the cancelled phase: the stored cancelled
/// coordinate is the maximum over the prior row and the events for that
/// key.
pub proof fn lemma_ask_cancelled_coord_is_max(
    rows: Seq<NftAskModel>,
    events: Seq<NftAskModel>,
    k: Seq<char>,
)
    ensures
        row_for(apply_rows(rows, events, ask_key(), ask_cancelled_merge()), k, ask_key()) matches
            Option::Some(r) ==> forall|i: int|
            0 <= i < events.len() && (#[trigger] events[i]).ask_obj_addr == k ==> !coord_lt(
                r.cancelled_coord(),
                events[i].cancelled_coord(),
            ),
        row_for(apply_rows(rows, events, ask_key(), ask_cancelled_merge()), k, ask_key()) matches
            Option::Some(r) ==> (row_for(rows, k, ask_key()) matches Option::Some(c) ==> !coord_lt(
            r.cancelled_coord(),
            c.cancelled_coord(),
        )),
{
    lemma_ask_cancelled_merge_shape();
    lemma_apply_coord_is_max(
        rows,
        events,
        ask_key(),
        ask_cancelled_coord(),
        ask_cancelled_merge(),
        k,
    );
}

/// For every collection-bid key: the stored latest-fill coordinate is
/// the maximum over the prior row and the fills for that key, whatever
/// order the fills arrive in.
pub proof fn lemma_collection_bid_latest_fill_is_max(
    rows: Seq<CollectionBidModel>,
    events: Seq<CollectionBidModel>,
    k: Seq<char>,
)
    ensures
        row_for(
            apply_rows(rows, events, collection_bid_key(), collection_bid_filled_merge()),
            k,
            collection_bid_key(),
        ) matches Option::Some(r) ==> forall|i: int|
            0 <= i < events.len() && (#[trigger] events[i]).bid_obj_addr == k ==> !coord_lt(
                r.latest_filled_coord(),
                events[i].latest_filled_coord(),
            ),
        row_for(
            apply_rows(rows, events, collection_bid_key(), collection_bid_filled_merge()),
            k,
            collection_bid_key(),
        ) matches Option::Some(r) ==> (row_for(rows, k, collection_bid_key()) matches
            Option::Some(c) ==> !coord_lt(r.latest_filled_coord(), c.latest_filled_coord())),
{
    lemma_collection_bid_filled_merge_shape();
    lemma_apply_coord_is_max(
        rows,
        events,
        collection_bid_key(),
        collection_bid_latest_filled_coord(),
        collection_bid_filled_merge(),
        k,
    );
}

/// Duplicate audit rows are ignored: inserting an activity whose
/// coordinate is already in the table leaves the table exactly as it
/// was, so the first insert wins.
pub proof fn lemma_activity_duplicate_ignored(rows: Seq<ActivityModel>, a: ActivityModel)
    requires
        row_for(rows, a.coord(), activity_key()) is Some,
    ensures
        upsert_row(rows, a, activity_key(), activity_merge()) == rows,
{
    lemma_row_for_finds_first(rows, a.coord(), activity_key());
    let i = choose|i: int|
        0 <= i < rows.len() && (#[trigger] rows[i]).coord() == a.coord() && rows[i] == row_for(
            rows,
            a.coord(),
            activity_key(),
        )->0 && (forall|j: int| 0 <= j < i ==> (#[trigger] rows[j]).coord() != a.coord());
    lemma_upsert_match_at(rows, a, activity_key(), activity_merge(), i);
    assert(rows.update(i, rows[i]) =~= rows);
}

/// Replay idempotence for placed asks: applying the same batch twice
/// leaves the table exactly as one application left it.
pub proof fn lemma_ask_placed_idempotent(rows: Seq<NftAskModel>, events: Seq<NftAskModel>)
    ensures
        apply_rows(
            apply_rows(rows, events, ask_key(), ask_placed_merge()),
            events,
            ask_key(),
            ask_placed_merge(),
        ) == apply_rows(rows, events, ask_key(), ask_placed_merge()),
{
    lemma_ask_placed_merge_shape();
    lemma_apply_idempotent(rows, events, ask_key(), ask_placed_coord(), ask_placed_merge());
}

/// Replay idempotence for filled asks.
pub proof fn lemma_ask_filled_idempotent(rows: Seq<NftAskModel>, events: Seq<NftAskModel>)
    ensures
        apply_rows(
            apply_rows(rows, events, ask_key(), ask_filled_merge()),
            events,
            ask_key(),
            ask_filled_merge(),
        ) == apply_rows(rows, events, ask_key(), ask_filled_merge()),
{
    lemma_ask_filled_merge_shape();
    lemma_apply_idempotent(rows, events, ask_key(), ask_filled_coord(), ask_filled_merge());
}

/// Replay idempotence for cancelled asks.
pub proof fn lemma_ask_cancelled_idempotent(rows: Seq<NftAskModel>, events: Seq<NftAskModel>)
    ensures
        apply_rows(
            apply_rows(rows, events, ask_key(), ask_cancelled_merge()),
            events,
            ask_key(),
            ask_cancelled_merge(),
        ) == apply_rows(rows, events, ask_key(), ask_cancelled_merge()),
{
    lemma_ask_cancelled_merge_shape();
    lemma_apply_idempotent(rows, events, ask_key(), ask_cancelled_coord(), ask_cancelled_merge());
}

/// Replay idempotence for bids, placed phase.
pub proof fn lemma_bid_placed_idempotent(rows: Seq<NftBidModel>, events: Seq<NftBidModel>)
    ensures
        apply_rows(
            apply_rows(rows, events, bid_key(), bid_placed_merge()),
            events,
            bid_key(),
            bid_placed_merge(),
        ) == apply_rows(rows, events, bid_key(), bid_placed_merge()),
{
    lemma_bid_placed_merge_shape();
    lemma_apply_idempotent(rows, events, bid_key(), bid_placed_coord(), bid_placed_merge());
}

/// Replay idempotence for bids, filled phase.
pub proof fn lemma_bid_filled_idempotent(rows: Seq<NftBidModel>, events: Seq<NftBidModel>)
    ensures
        apply_rows(
            apply_rows(rows, events, bid_key(), bid_filled_merge()),
            events,
            bid_key(),
            bid_filled_merge(),
        ) == apply_rows(rows, events, bid_key(), bid_filled_merge()),
{
    lemma_bid_filled_merge_shape();
    lemma_apply_idempotent(rows, events, bid_key(), bid_filled_coord(), bid_filled_merge());
}

/// Replay idempotence for bids, cancelled phase.
pub proof fn lemma_bid_cancelled_idempotent(rows: Seq<NftBidModel>, events: Seq<NftBidModel>)
    ensures
        apply_rows(
            apply_rows(rows, events, bid_key(), bid_cancelled_merge()),
            events,
            bid_key(),
            bid_cancelled_merge(),
        ) == apply_rows(rows, events, bid_key(), bid_cancelled_merge()),
{
    lemma_bid_cancelled_merge_shape();
    lemma_apply_idempotent(rows, events, bid_key(), bid_cancelled_coord(), bid_cancelled_merge());
}

/// Replay idempotence for collection bids, placed phase.
pub proof fn lemma_collection_bid_placed_idempotent(
    rows: Seq<CollectionBidModel>,
    events: Seq<CollectionBidModel>,
)
    ensures
        apply_rows(
            apply_rows(rows, events, collection_bid_key(), collection_bid_placed_merge()),
            events,
            collection_bid_key(),
            collection_bid_placed_merge(),
        ) == apply_rows(rows, events, collection_bid_key(), collection_bid_placed_merge()),
{
    lemma_collection_bid_placed_merge_shape();
    lemma_apply_idempotent(
        rows,
        events,
        collection_bid_key(),
        collection_bid_placed_coord(),
        collection_bid_placed_merge(),
    );
}

/// Replay idempotence for collection-bid fills on the parent bid.
pub proof fn lemma_collection_bid_filled_idempotent(
    rows: Seq<CollectionBidModel>,
    events: Seq<CollectionBidModel>,
)
    ensures
        apply_rows(
            apply_rows(rows, events, collection_bid_key(), collection_bid_filled_merge()),
            events,
            collection_bid_key(),
            collection_bid_filled_merge(),
        ) == apply_rows(rows, events, collection_bid_key(), collection_bid_filled_merge()),
{
    lemma_collection_bid_filled_merge_shape();
    lemma_apply_idempotent(
        rows,
        events,
        collection_bid_key(),
        collection_bid_latest_filled_coord(),
        collection_bid_filled_merge(),
    );
}

/// Replay idempotence for collection bids, cancelled phase.
pub proof fn lemma_collection_bid_cancelled_idempotent(
    rows: Seq<CollectionBidModel>,
    events: Seq<CollectionBidModel>,
)
    ensures
        apply_rows(
            apply_rows(rows, events, collection_bid_key(), collection_bid_cancelled_merge()),
            events,
            collection_bid_key(),
            collection_bid_cancelled_merge(),
        ) == apply_rows(rows, events, collection_bid_key(), collection_bid_cancelled_merge()),
{
    lemma_collection_bid_cancelled_merge_shape();
    lemma_apply_idempotent(
        rows,
        events,
        collection_bid_key(),
        collection_bid_cancelled_coord(),
        collection_bid_cancelled_merge(),
    );
}

/// Replay idempotence for collection-bid fill rows.
pub proof fn lemma_filled_collection_bid_idempotent(
    rows: Seq<FilledCollectionBidModel>,
    events: Seq<FilledCollectionBidModel>,
)
    ensures
        apply_rows(
            apply_rows(rows, events, filled_collection_bid_key(), filled_collection_bid_merge()),
            events,
            filled_collection_bid_key(),
            filled_collection_bid_merge(),
        ) == apply_rows(rows, events, filled_collection_bid_key(), filled_collection_bid_merge()),
{
    lemma_filled_collection_bid_merge_shape();
    lemma_apply_idempotent(
        rows,
        events,
        filled_collection_bid_key(),
        filled_collection_bid_coord(),
        filled_collection_bid_merge(),
    );
}

/// Order invariance for a deduplicated placed-ask batch: applying any
/// permutation of the batch yields, for every key, the same stored row.
pub proof fn lemma_ask_placed_order_invariant(
    rows: Seq<NftAskModel>,
    events1: Seq<NftAskModel>,
    events2: Seq<NftAskModel>,
    k: Seq<char>,
)
    requires
        events1.to_multiset() == events2.to_multiset(),
        distinct_keys(events1, ask_key()),
        distinct_keys(events2, ask_key()),
    ensures
        row_for(apply_rows(rows, events1, ask_key(), ask_placed_merge()), k, ask_key()) == row_for(
            apply_rows(rows, events2, ask_key(), ask_placed_merge()),
            k,
            ask_key(),
        ),
{
    lemma_apply_order_invariant(rows, events1, events2, ask_key(), ask_placed_merge(), k);
}

/// Order invariance for a batch of filled asks without key conflicts.
pub proof fn lemma_ask_filled_order_invariant(
    rows: Seq<NftAskModel>,
    events1: Seq<NftAskModel>,
    events2: Seq<NftAskModel>,
    k: Seq<char>,
)
    requires
        events1.to_multiset() == events2.to_multiset(),
        distinct_keys(events1, ask_key()),
        distinct_keys(events2, ask_key()),
    ensures
        row_for(apply_rows(rows, events1, ask_key(), ask_filled_merge()), k, ask_key()) == row_for(
            apply_rows(rows, events2, ask_key(), ask_filled_merge()),
            k,
            ask_key(),
        ),
{
    lemma_apply_order_invariant(rows, events1, events2, ask_key(), ask_filled_merge(), k);
}

/// Replay idempotence of a whole bid batch: the storer applies the
/// placed, filled and cancelled parts in order; running all three parts
/// a second time leaves the table exactly as the first run left it,
/// because each phase's merge touches only its own coordinate and every
/// stored coordinate already dominates the batch.
pub proof fn lemma_bid_table_idempotent(
    rows: Seq<NftBidModel>,
    placed: Seq<NftBidModel>,
    filled: Seq<NftBidModel>,
    cancelled: Seq<NftBidModel>,
)
    ensures
        ({
            let once = apply_rows(
                apply_rows(
                    apply_rows(rows, placed, bid_key(), bid_placed_merge()),
                    filled,
                    bid_key(),
                    bid_filled_merge(),
                ),
                cancelled,
                bid_key(),
                bid_cancelled_merge(),
            );
            apply_rows(
                apply_rows(
                    apply_rows(once, placed, bid_key(), bid_placed_merge()),
                    filled,
                    bid_key(),
                    bid_filled_merge(),
                ),
                cancelled,
                bid_key(),
                bid_cancelled_merge(),
            ) == once
        }),
{
    lemma_bid_placed_merge_shape();
    lemma_bid_filled_merge_shape();
    lemma_bid_cancelled_merge_shape();
    let s1 = apply_rows(rows, placed, bid_key(), bid_placed_merge());
    let s2 = apply_rows(s1, filled, bid_key(), bid_filled_merge());
    let s3 = apply_rows(s2, cancelled, bid_key(), bid_cancelled_merge());
    assert forall|i: int| 0 <= i < placed.len() implies (row_for(
        s3,
        bid_key()(#[trigger] placed[i]),
        bid_key(),
    ) matches Option::Some(c) && !coord_lt(c.placed_coord(), placed[i].placed_coord())) by {
        let k = placed[i].bid_obj_addr;
        lemma_apply_coord_is_max(rows, placed, bid_key(), bid_placed_coord(), bid_placed_merge(), k);
        lemma_apply_preserves_coord(
            s1,
            filled,
            bid_key(),
            bid_filled_merge(),
            bid_placed_coord(),
            k,
        );
        lemma_apply_preserves_coord(
            s2,
            cancelled,
            bid_key(),
            bid_cancelled_merge(),
            bid_placed_coord(),
            k,
        );
    }
    lemma_apply_noop(s3, placed, bid_key(), bid_placed_coord(), bid_placed_merge());
    assert forall|i: int| 0 <= i < filled.len() implies (row_for(
        s3,
        bid_key()(#[trigger] filled[i]),
        bid_key(),
    ) matches Option::Some(c) && !coord_lt(c.filled_coord(), filled[i].filled_coord())) by {
        let k = filled[i].bid_obj_addr;
        lemma_apply_coord_is_max(s1, filled, bid_key(), bid_filled_coord(), bid_filled_merge(), k);
        lemma_apply_preserves_coord(
            s2,
            cancelled,
            bid_key(),
            bid_cancelled_merge(),
            bid_filled_coord(),
            k,
        );
    }
    lemma_apply_noop(s3, filled, bid_key(), bid_filled_coord(), bid_filled_merge());
    assert forall|i: int| 0 <= i < cancelled.len() implies (row_for(
        s3,
        bid_key()(#[trigger] cancelled[i]),
        bid_key(),
    ) matches Option::Some(c) && !coord_lt(c.cancelled_coord(), cancelled[i].cancelled_coord()))
        by {
        let k = cancelled[i].bid_obj_addr;
        lemma_apply_coord_is_max(
            s2,
            cancelled,
            bid_key(),
            bid_cancelled_coord(),
            bid_cancelled_merge(),
            k,
        );
    }
    lemma_apply_noop(s3, cancelled, bid_key(), bid_cancelled_coord(), bid_cancelled_merge());
}

/// Replay idempotence of a whole ask batch: placed, filled and
/// cancelled parts applied in order, then all three again, leave the
/// table as the first run left it.
pub proof fn lemma_ask_table_idempotent(
    rows: Seq<NftAskModel>,
    placed: Seq<NftAskModel>,
    filled: Seq<NftAskModel>,
    cancelled: Seq<NftAskModel>,
)
    ensures
        ({
            let once = apply_rows(
                apply_rows(
                    apply_rows(rows, placed, ask_key(), ask_placed_merge()),
                    filled,
                    ask_key(),
                    ask_filled_merge(),
                ),
                cancelled,
                ask_key(),
                ask_cancelled_merge(),
            );
            apply_rows(
                apply_rows(
                    apply_rows(once, placed, ask_key(), ask_placed_merge()),
                    filled,
                    ask_key(),
                    ask_filled_merge(),
                ),
                cancelled,
                ask_key(),
                ask_cancelled_merge(),
            ) == once
        }),
{
    lemma_ask_placed_merge_shape();
    lemma_ask_filled_merge_shape();
    lemma_ask_cancelled_merge_shape();
    let s1 = apply_rows(rows, placed, ask_key(), ask_placed_merge());
    let s2 = apply_rows(s1, filled, ask_key(), ask_filled_merge());
    let s3 = apply_rows(s2, cancelled, ask_key(), ask_cancelled_merge());
    assert forall|i: int| 0 <= i < placed.len() implies (row_for(
        s3,
        ask_key()(#[trigger] placed[i]),
        ask_key(),
    ) matches Option::Some(c) && !coord_lt(c.placed_coord(), placed[i].placed_coord())) by {
        let k = placed[i].ask_obj_addr;
        lemma_apply_coord_is_max(rows, placed, ask_key(), ask_placed_coord(), ask_placed_merge(), k);
        lemma_apply_preserves_coord(
            s1,
            filled,
            ask_key(),
            ask_filled_merge(),
            ask_placed_coord(),
            k,
        );
        lemma_apply_preserves_coord(
            s2,
            cancelled,
            ask_key(),
            ask_cancelled_merge(),
            ask_placed_coord(),
            k,
        );
    }
    lemma_apply_noop(s3, placed, ask_key(), ask_placed_coord(), ask_placed_merge());
    assert forall|i: int| 0 <= i < filled.len() implies (row_for(
        s3,
        ask_key()(#[trigger] filled[i]),
        ask_key(),
    ) matches Option::Some(c) && !coord_lt(c.filled_coord(), filled[i].filled_coord())) by {
        let k = filled[i].ask_obj_addr;
        lemma_apply_coord_is_max(s1, filled, ask_key(), ask_filled_coord(), ask_filled_merge(), k);
        lemma_apply_preserves_coord(
            s2,
            cancelled,
            ask_key(),
            ask_cancelled_merge(),
            ask_filled_coord(),
            k,
        );
    }
    lemma_apply_noop(s3, filled, ask_key(), ask_filled_coord(), ask_filled_merge());
    assert forall|i: int| 0 <= i < cancelled.len() implies (row_for(
        s3,
        ask_key()(#[trigger] cancelled[i]),
        ask_key(),
    ) matches Option::Some(c) && !coord_lt(c.cancelled_coord(), cancelled[i].cancelled_coord()))
        by {
        let k = cancelled[i].ask_obj_addr;
        lemma_apply_coord_is_max(
            s2,
            cancelled,
            ask_key(),
            ask_cancelled_coord(),
            ask_cancelled_merge(),
            k,
        );
    }
    lemma_apply_noop(s3, cancelled, ask_key(), ask_cancelled_coord(), ask_cancelled_merge());
}

/// Replay idempotence of a whole collection-bid batch: placed parts,
/// latest-fill advances and cancelled parts applied in order, then all
/// three again, leave the table as the first run left it.
pub proof fn lemma_collection_bid_table_idempotent(
    rows: Seq<CollectionBidModel>,
    placed: Seq<CollectionBidModel>,
    filled: Seq<CollectionBidModel>,
    cancelled: Seq<CollectionBidModel>,
)
    ensures
        ({
            let once = apply_rows(
                apply_rows(
                    apply_rows(rows, placed, collection_bid_key(), collection_bid_placed_merge()),
                    filled,
                    collection_bid_key(),
                    collection_bid_filled_merge(),
                ),
                cancelled,
                collection_bid_key(),
                collection_bid_cancelled_merge(),
            );
            apply_rows(
                apply_rows(
                    apply_rows(once, placed, collection_bid_key(), collection_bid_placed_merge()),
                    filled,
                    collection_bid_key(),
                    collection_bid_filled_merge(),
                ),
                cancelled,
                collection_bid_key(),
                collection_bid_cancelled_merge(),
            ) == once
        }),
{
    lemma_collection_bid_placed_merge_shape();
    lemma_collection_bid_filled_merge_shape();
    lemma_collection_bid_cancelled_merge_shape();
    let s1 = apply_rows(rows, placed, collection_bid_key(), collection_bid_placed_merge());
    let s2 = apply_rows(s1, filled, collection_bid_key(), collection_bid_filled_merge());
    let s3 = apply_rows(s2, cancelled, collection_bid_key(), collection_bid_cancelled_merge());
    assert forall|i: int| 0 <= i < placed.len() implies (row_for(
        s3,
        collection_bid_key()(#[trigger] placed[i]),
        collection_bid_key(),
    ) matches Option::Some(c) && !coord_lt(c.placed_coord(), placed[i].placed_coord())) by {
        let k = placed[i].bid_obj_addr;
        lemma_apply_coord_is_max(
            rows,
            placed,
            collection_bid_key(),
            collection_bid_placed_coord(),
            collection_bid_placed_merge(),
            k,
        );
        lemma_apply_preserves_coord(
            s1,
            filled,
            collection_bid_key(),
            collection_bid_filled_merge(),
            collection_bid_placed_coord(),
            k,
        );
        lemma_apply_preserves_coord(
            s2,
            cancelled,
            collection_bid_key(),
            collection_bid_cancelled_merge(),
            collection_bid_placed_coord(),
            k,
        );
    }
    lemma_apply_noop(
        s3,
        placed,
        collection_bid_key(),
        collection_bid_placed_coord(),
        collection_bid_placed_merge(),
    );
    assert forall|i: int| 0 <= i < filled.len() implies (row_for(
        s3,
        collection_bid_key()(#[trigger] filled[i]),
        collection_bid_key(),
    ) matches Option::Some(c) && !coord_lt(
        c.latest_filled_coord(),
        filled[i].latest_filled_coord(),
    )) by {
        let k = filled[i].bid_obj_addr;
        lemma_apply_coord_is_max(
            s1,
            filled,
            collection_bid_key(),
            collection_bid_latest_filled_coord(),
            collection_bid_filled_merge(),
            k,
        );
        lemma_apply_preserves_coord(
            s2,
            cancelled,
            collection_bid_key(),
            collection_bid_cancelled_merge(),
            collection_bid_latest_filled_coord(),
            k,
        );
    }
    lemma_apply_noop(
        s3,
        filled,
        collection_bid_key(),
        collection_bid_latest_filled_coord(),
        collection_bid_filled_merge(),
    );
    assert forall|i: int| 0 <= i < cancelled.len() implies (row_for(
        s3,
        collection_bid_key()(#[trigger] cancelled[i]),
        collection_bid_key(),
    ) matches Option::Some(c) && !coord_lt(c.cancelled_coord(), cancelled[i].cancelled_coord()))
        by {
        let k = cancelled[i].bid_obj_addr;
        lemma_apply_coord_is_max(
            s2,
            cancelled,
            collection_bid_key(),
            collection_bid_cancelled_coord(),
            collection_bid_cancelled_merge(),
            k,
        );
    }
    lemma_apply_noop(
        s3,
        cancelled,
        collection_bid_key(),
        collection_bid_cancelled_coord(),
        collection_bid_cancelled_merge(),
    );
}

/// Replay idempotence of the audit table: the audit rows of a batch,
/// inserted again, are all ignored, since their coordinates are already
/// stored and a conflicting insert keeps the stored row.
pub proof fn lemma_activity_table_idempotent(
    rows: Seq<ActivityModel>,
    events: Seq<ActivityModel>,
)
    ensures
        apply_rows(
            apply_rows(rows, events, activity_key(), activity_merge()),
            events,
            activity_key(),
            activity_merge(),
        ) == apply_rows(rows, events, activity_key(), activity_merge()),
{
    let once = apply_rows(rows, events, activity_key(), activity_merge());
    assert forall|i: int| 0 <= i < events.len() implies row_for(
        once,
        activity_key()(#[trigger] events[i]),
        activity_key(),
    ) is Some by {
        lemma_apply_presence(rows, events, activity_key(), activity_merge(), events[i].coord());
    }
    lemma_apply_noop_keep(once, events, activity_key(), activity_merge());
}

/// A key is stored after a batch exactly when it was stored before or
/// an event of the batch carries it; stated here for the audit table.
proof fn lemma_apply_presence(
    rows: Seq<ActivityModel>,
    events: Seq<ActivityModel>,
    key: spec_fn(ActivityModel) -> (i64, i64),
    merge: spec_fn(ActivityModel, ActivityModel) -> ActivityModel,
    k: (i64, i64),
)
    requires
        forall|cur: ActivityModel, new: ActivityModel|
            key(cur) == key(new) ==> key(#[trigger] merge(cur, new)) == key(cur),
    ensures
        row_for(apply_rows(rows, events, key, merge), k, key) is Some <==> (row_for(rows, k, key)
            is Some || exists|i: int| 0 <= i < events.len() && key(#[trigger] events[i]) == k),
    decreases events.len(),
{
    if events.len() == 0 {
    } else {
        let rows1 = crate::projection::upsert_row(rows, events[0], key, merge);
        let rest = events.skip(1);
        crate::projection::lemma_upsert_row_for(rows, events[0], key, merge, k);
        lemma_apply_presence(rows1, rest, key, merge, k);
        assert(forall|i: int| 0 <= i < rest.len() ==> #[trigger] rest[i] == events[i + 1]);
        assert((exists|i: int| 0 <= i < events.len() && key(#[trigger] events[i]) == k) <==> (k
            == key(events[0]) || exists|i: int| 0 <= i < rest.len() && key(#[trigger] rest[i])
            == k)) by {
            if exists|i: int| 0 <= i < events.len() && key(#[trigger] events[i]) == k {
                let i = choose|i: int| 0 <= i < events.len() && key(#[trigger] events[i]) == k;
                if i > 0 {
                    assert(rest[i - 1] == events[i]);
                    assert(key(rest[i - 1]) == k);
                }
            }
            if exists|i: int| 0 <= i < rest.len() && key(#[trigger] rest[i]) == k {
                let i = choose|i: int| 0 <= i < rest.len() && key(#[trigger] rest[i]) == k;
                assert(key(events[i + 1]) == k);
            }
        }
    }
}

/// Order invariance for filled asks on one key the table already holds,
/// without any deduplication: as long as the events' filled coordinates
/// are pairwise distinct and each row carries the filled status — which
/// every decoded filled event does — any permutation of the batch leaves
/// the same stored row. Together with the distinct-key law this extends
/// order invariance to batches that hit one key repeatedly.
pub proof fn lemma_ask_filled_same_key_order_invariant(
    rows: Seq<NftAskModel>,
    events1: Seq<NftAskModel>,
    events2: Seq<NftAskModel>,
    k: Seq<char>,
)
    requires
        events1.to_multiset() == events2.to_multiset(),
        forall|i: int| 0 <= i < events1.len() ==> (#[trigger] events1[i]).ask_obj_addr == k,
        forall|i: int| 0 <= i < events2.len() ==> (#[trigger] events2[i]).ask_obj_addr == k,
        forall|i: int| 0 <= i < events1.len() ==> (#[trigger] events1[i]).order_status == 2,
        forall|i: int, j: int|
            0 <= i < j < events1.len() ==> (#[trigger] events1[i]).filled_coord() != (
            #[trigger] events1[j]).filled_coord(),
        forall|i: int, j: int|
            0 <= i < j < events2.len() ==> (#[trigger] events2[i]).filled_coord() != (
            #[trigger] events2[j]).filled_coord(),
        row_for(rows, k, ask_key()) is Some,
    ensures
        row_for(apply_rows(rows, events1, ask_key(), ask_filled_merge()), k, ask_key()) == row_for(
            apply_rows(rows, events2, ask_key(), ask_filled_merge()),
            k,
            ask_key(),
        ),
{
    lemma_ask_filled_merge_shape();
    crate::projection::lemma_apply_same_key_order_invariant(
        rows,
        events1,
        events2,
        ask_key(),
        ask_filled_coord(),
        ask_filled_merge(),
        k,
    );
}

/// Order invariance for cancelled asks on one key the table already
/// holds: the cancelled-phase twin of the filled-phase law, with the
/// cancelled status every decoded cancelled event carries.
pub proof fn lemma_ask_cancelled_same_key_order_invariant(
    rows: Seq<NftAskModel>,
    events1: Seq<NftAskModel>,
    events2: Seq<NftAskModel>,
    k: Seq<char>,
)
    requires
        events1.to_multiset() == events2.to_multiset(),
        forall|i: int| 0 <= i < events1.len() ==> (#[trigger] events1[i]).ask_obj_addr == k,
        forall|i: int| 0 <= i < events2.len() ==> (#[trigger] events2[i]).ask_obj_addr == k,
        forall|i: int| 0 <= i < events1.len() ==> (#[trigger] events1[i]).order_status == 3,
        forall|i: int, j: int|
            0 <= i < j < events1.len() ==> (#[trigger] events1[i]).cancelled_coord() != (
            #[trigger] events1[j]).cancelled_coord(),
        forall|i: int, j: int|
            0 <= i < j < events2.len() ==> (#[trigger] events2[i]).cancelled_coord() != (
            #[trigger] events2[j]).cancelled_coord(),
        row_for(rows, k, ask_key()) is Some,
    ensures
        row_for(apply_rows(rows, events1, ask_key(), ask_cancelled_merge()), k, ask_key())
            == row_for(apply_rows(rows, events2, ask_key(), ask_cancelled_merge()), k, ask_key()),
{
    lemma_ask_cancelled_merge_shape();
    crate::projection::lemma_apply_same_key_order_invariant(
        rows,
        events1,
        events2,
        ask_key(),
        ask_cancelled_coord(),
        ask_cancelled_merge(),
        k,
    );
}

/// Order invariance for filled bids on one key the table already holds;
/// the bid-table twin of the filled-ask law.
pub proof fn lemma_bid_filled_same_key_order_invariant(
    rows: Seq<NftBidModel>,
    events1: Seq<NftBidModel>,
    events2: Seq<NftBidModel>,
    k: Seq<char>,
)
    requires
        events1.to_multiset() == events2.to_multiset(),
        forall|i: int| 0 <= i < events1.len() ==> (#[trigger] events1[i]).bid_obj_addr == k,
        forall|i: int| 0 <= i < events2.len() ==> (#[trigger] events2[i]).bid_obj_addr == k,
        forall|i: int| 0 <= i < events1.len() ==> (#[trigger] events1[i]).order_status == 2,
        forall|i: int, j: int|
            0 <= i < j < events1.len() ==> (#[trigger] events1[i]).filled_coord() != (
            #[trigger] events1[j]).filled_coord(),
        forall|i: int, j: int|
            0 <= i < j < events2.len() ==> (#[trigger] events2[i]).filled_coord() != (
            #[trigger] events2[j]).filled_coord(),
        row_for(rows, k, bid_key()) is Some,
    ensures
        row_for(apply_rows(rows, events1, bid_key(), bid_filled_merge()), k, bid_key()) == row_for(
            apply_rows(rows, events2, bid_key(), bid_filled_merge()),
            k,
            bid_key(),
        ),
{
    lemma_bid_filled_merge_shape();
    crate::projection::lemma_apply_same_key_order_invariant(
        rows,
        events1,
        events2,
        bid_key(),
        bid_filled_coord(),
        bid_filled_merge(),
        k,
    );
}

/// Order invariance for cancelled bids on one key the table already
/// holds.
pub proof fn lemma_bid_cancelled_same_key_order_invariant(
    rows: Seq<NftBidModel>,
    events1: Seq<NftBidModel>,
    events2: Seq<NftBidModel>,
    k: Seq<char>,
)
    requires
        events1.to_multiset() == events2.to_multiset(),
        forall|i: int| 0 <= i < events1.len() ==> (#[trigger] events1[i]).bid_obj_addr == k,
        forall|i: int| 0 <= i < events2.len() ==> (#[trigger] events2[i]).bid_obj_addr == k,
        forall|i: int| 0 <= i < events1.len() ==> (#[trigger] events1[i]).order_status == 3,
        forall|i: int, j: int|
            0 <= i < j < events1.len() ==> (#[trigger] events1[i]).cancelled_coord() != (
            #[trigger] events1[j]).cancelled_coord(),
        forall|i: int, j: int|
            0 <= i < j < events2.len() ==> (#[trigger] events2[i]).cancelled_coord() != (
            #[trigger] events2[j]).cancelled_coord(),
        row_for(rows, k, bid_key()) is Some,
    ensures
        row_for(apply_rows(rows, events1, bid_key(), bid_cancelled_merge()), k, bid_key())
            == row_for(apply_rows(rows, events2, bid_key(), bid_cancelled_merge()), k, bid_key()),
{
    lemma_bid_cancelled_merge_shape();
    crate::projection::lemma_apply_same_key_order_invariant(
        rows,
        events1,
        events2,
        bid_key(),
        bid_cancelled_coord(),
        bid_cancelled_merge(),
        k,
    );
}

/// Order invariance for collection-bid fills on one bid the table
/// already holds: the latest-fill merge touches only its own triplet,
/// so no status condition is needed — exactly the case of one
/// collection bid filled many times in a batch.
pub proof fn lemma_collection_bid_filled_same_key_order_invariant(
    rows: Seq<CollectionBidModel>,
    events1: Seq<CollectionBidModel>,
    events2: Seq<CollectionBidModel>,
    k: Seq<char>,
)
    requires
        events1.to_multiset() == events2.to_multiset(),
        forall|i: int| 0 <= i < events1.len() ==> (#[trigger] events1[i]).bid_obj_addr == k,
        forall|i: int| 0 <= i < events2.len() ==> (#[trigger] events2[i]).bid_obj_addr == k,
        forall|i: int, j: int|
            0 <= i < j < events1.len() ==> (#[trigger] events1[i]).latest_filled_coord() != (
            #[trigger] events1[j]).latest_filled_coord(),
        forall|i: int, j: int|
            0 <= i < j < events2.len() ==> (#[trigger] events2[i]).latest_filled_coord() != (
            #[trigger] events2[j]).latest_filled_coord(),
        row_for(rows, k, collection_bid_key()) is Some,
    ensures
        row_for(
            apply_rows(rows, events1, collection_bid_key(), collection_bid_filled_merge()),
            k,
            collection_bid_key(),
        ) == row_for(
            apply_rows(rows, events2, collection_bid_key(), collection_bid_filled_merge()),
            k,
            collection_bid_key(),
        ),
{
    lemma_collection_bid_filled_merge_shape();
    crate::projection::lemma_apply_same_key_order_invariant(
        rows,
        events1,
        events2,
        collection_bid_key(),
        collection_bid_latest_filled_coord(),
        collection_bid_filled_merge(),
        k,
    );
}

/// Order invariance for fill rows on one (bid, NFT) key the table
/// already holds: the fill merge replaces every non-key field and has
/// no status, so no further condition is needed.
pub proof fn lemma_filled_collection_bid_same_key_order_invariant(
    rows: Seq<FilledCollectionBidModel>,
    events1: Seq<FilledCollectionBidModel>,
    events2: Seq<FilledCollectionBidModel>,
    k: (Seq<char>, Seq<char>, Seq<char>),
)
    requires
        events1.to_multiset() == events2.to_multiset(),
        forall|i: int| 0 <= i < events1.len() ==> (#[trigger] events1[i]).key() == k,
        forall|i: int| 0 <= i < events2.len() ==> (#[trigger] events2[i]).key() == k,
        forall|i: int, j: int|
            0 <= i < j < events1.len() ==> (#[trigger] events1[i]).filled_coord() != (
            #[trigger] events1[j]).filled_coord(),
        forall|i: int, j: int|
            0 <= i < j < events2.len() ==> (#[trigger] events2[i]).filled_coord() != (
            #[trigger] events2[j]).filled_coord(),
        row_for(rows, k, filled_collection_bid_key()) is Some,
    ensures
        row_for(
            apply_rows(rows, events1, filled_collection_bid_key(), filled_collection_bid_merge()),
            k,
            filled_collection_bid_key(),
        ) == row_for(
            apply_rows(rows, events2, filled_collection_bid_key(), filled_collection_bid_merge()),
            k,
            filled_collection_bid_key(),
        ),
{
    lemma_filled_collection_bid_merge_shape();
    crate::projection::lemma_apply_same_key_order_invariant(
        rows,
        events1,
        events2,
        filled_collection_bid_key(),
        filled_collection_bid_coord(),
        filled_collection_bid_merge(),
        k,
    );
}

/// Deduplication leaves no key conflicts: every placed-bid batch, after
/// the in-batch deduplication, holds each bid key at most once, so the
/// order-invariance laws apply to it.
pub proof fn lemma_dedup_bid_placed_distinct(events: Seq<(NftBidModel, ActivityModel)>)
    ensures
        distinct_keys(
            spec_dedup_bid_placed(events),
            crate::marketplace_storer::bid_pair_key(),
        ),
{
    crate::projection::lemma_apply_rows_distinct(
        Seq::empty(),
        events,
        crate::marketplace_storer::bid_pair_key(),
        crate::marketplace_storer::bid_placed_pick(),
    );
}

/// Deduplication leaves no key conflicts among placed asks.
pub proof fn lemma_dedup_ask_placed_distinct(events: Seq<(NftAskModel, ActivityModel)>)
    ensures
        distinct_keys(
            spec_dedup_ask_placed(events),
            crate::marketplace_storer::ask_pair_key(),
        ),
{
    crate::projection::lemma_apply_rows_distinct(
        Seq::empty(),
        events,
        crate::marketplace_storer::ask_pair_key(),
        crate::marketplace_storer::ask_placed_pick(),
    );
}

/// Deduplication leaves no key conflicts among placed collection bids.
pub proof fn lemma_dedup_collection_bid_placed_distinct(
    events: Seq<(CollectionBidModel, ActivityModel)>,
)
    ensures
        distinct_keys(
            spec_dedup_collection_bid_placed(events),
            crate::marketplace_storer::collection_bid_pair_key(),
        ),
{
    crate::projection::lemma_apply_rows_distinct(
        Seq::empty(),
        events,
        crate::marketplace_storer::collection_bid_pair_key(),
        crate::marketplace_storer::collection_bid_placed_pick(),
    );
}

/// Replay idempotence of one whole decoded batch: the storer partitions
/// it into nine parts and applies them in a fixed order; applying the
/// same batch a second time leaves every table of the store exactly as
/// the first application left it. This is what lets the pipeline
/// re-process from the last watermark after a failure.
pub proof fn lemma_marketplace_batch_idempotent(
    asks0: Seq<NftAskModel>,
    bids0: Seq<NftBidModel>,
    collection_bids0: Seq<CollectionBidModel>,
    fills0: Seq<FilledCollectionBidModel>,
    activities0: Seq<ActivityModel>,
    events: Seq<ContractEvent>,
)
    ensures
        ({
            let p = pair_firsts(spec_dedup_bid_placed(spec_part_bid_placed(events)));
            let f = pair_firsts(spec_part_bid_filled(events));
            let c = pair_firsts(spec_part_bid_cancelled(events));
            let once = apply_rows(
                apply_rows(
                    apply_rows(bids0, p, bid_key(), bid_placed_merge()),
                    f,
                    bid_key(),
                    bid_filled_merge(),
                ),
                c,
                bid_key(),
                bid_cancelled_merge(),
            );
            apply_rows(
                apply_rows(
                    apply_rows(once, p, bid_key(), bid_placed_merge()),
                    f,
                    bid_key(),
                    bid_filled_merge(),
                ),
                c,
                bid_key(),
                bid_cancelled_merge(),
            ) == once
        }),
        ({
            let p = pair_firsts(spec_dedup_ask_placed(spec_part_ask_placed(events)));
            let f = pair_firsts(spec_part_ask_filled(events));
            let c = pair_firsts(spec_part_ask_cancelled(events));
            let once = apply_rows(
                apply_rows(
                    apply_rows(asks0, p, ask_key(), ask_placed_merge()),
                    f,
                    ask_key(),
                    ask_filled_merge(),
                ),
                c,
                ask_key(),
                ask_cancelled_merge(),
            );
            apply_rows(
                apply_rows(
                    apply_rows(once, p, ask_key(), ask_placed_merge()),
                    f,
                    ask_key(),
                    ask_filled_merge(),
                ),
                c,
                ask_key(),
                ask_cancelled_merge(),
            ) == once
        }),
        ({
            let p = pair_firsts(
                spec_dedup_collection_bid_placed(spec_part_collection_bid_placed(events)),
            );
            let f = triple_firsts(spec_part_collection_bid_filled(events));
            let c = pair_firsts(spec_part_collection_bid_cancelled(events));
            let once = apply_rows(
                apply_rows(
                    apply_rows(
                        collection_bids0,
                        p,
                        collection_bid_key(),
                        collection_bid_placed_merge(),
                    ),
                    f,
                    collection_bid_key(),
                    collection_bid_filled_merge(),
                ),
                c,
                collection_bid_key(),
                collection_bid_cancelled_merge(),
            );
            apply_rows(
                apply_rows(
                    apply_rows(once, p, collection_bid_key(), collection_bid_placed_merge()),
                    f,
                    collection_bid_key(),
                    collection_bid_filled_merge(),
                ),
                c,
                collection_bid_key(),
                collection_bid_cancelled_merge(),
            ) == once
        }),
        ({
            let s = triple_seconds(spec_part_collection_bid_filled(events));
            let once = apply_rows(
                fills0,
                s,
                filled_collection_bid_key(),
                filled_collection_bid_merge(),
            );
            apply_rows(once, s, filled_collection_bid_key(), filled_collection_bid_merge())
                == once
        }),
        ({
            let all_acts = spec_batch_activities(events);
            let once = apply_rows(activities0, all_acts, activity_key(), activity_merge());
            apply_rows(once, all_acts, activity_key(), activity_merge()) == once
        }),
{
    lemma_bid_table_idempotent(
        bids0,
        pair_firsts(spec_dedup_bid_placed(spec_part_bid_placed(events))),
        pair_firsts(spec_part_bid_filled(events)),
        pair_firsts(spec_part_bid_cancelled(events)),
    );
    lemma_ask_table_idempotent(
        asks0,
        pair_firsts(spec_dedup_ask_placed(spec_part_ask_placed(events))),
        pair_firsts(spec_part_ask_filled(events)),
        pair_firsts(spec_part_ask_cancelled(events)),
    );
    lemma_collection_bid_table_idempotent(
        collection_bids0,
        pair_firsts(spec_dedup_collection_bid_placed(spec_part_collection_bid_placed(events))),
        triple_firsts(spec_part_collection_bid_filled(events)),
        pair_firsts(spec_part_collection_bid_cancelled(events)),
    );
    lemma_filled_collection_bid_idempotent(
        fills0,
        triple_seconds(spec_part_collection_bid_filled(events)),
    );
    lemma_activity_table_idempotent(activities0, spec_batch_activities(events));
}

/// Every audit row of one decoded batch, in the order the storer writes
/// them: the nine parts' activities, placed parts deduplicated.
pub open spec fn spec_batch_activities(events: Seq<ContractEvent>) -> Seq<ActivityModel> {
    pair_seconds(spec_dedup_bid_placed(spec_part_bid_placed(events))) + pair_seconds(
        spec_part_bid_filled(events),
    ) + pair_seconds(spec_part_bid_cancelled(events)) + pair_seconds(
        spec_dedup_ask_placed(spec_part_ask_placed(events)),
    ) + pair_seconds(spec_part_ask_filled(events)) + pair_seconds(
        spec_part_ask_cancelled(events),
    ) + pair_seconds(spec_dedup_collection_bid_placed(spec_part_collection_bid_placed(events)))
        + triple_thirds(spec_part_collection_bid_filled(events)) + pair_seconds(
        spec_part_collection_bid_cancelled(events),
    )
}

/// The storer's nine sequential audit-row applications equal one
/// application of the whole batch's audit rows: concatenated batches
/// fold like sequential batches.
pub proof fn lemma_storer_activities_collapse(
    activities0: Seq<ActivityModel>,
    events: Seq<ContractEvent>,
)
    ensures
        apply_rows(
            apply_rows(
                apply_rows(
                    apply_rows(
                        apply_rows(
                            apply_rows(
                                apply_rows(
                                    apply_rows(
                                        apply_rows(
                                            activities0,
                                            pair_seconds(
                                                spec_dedup_bid_placed(
                                                    spec_part_bid_placed(events),
                                                ),
                                            ),
                                            activity_key(),
                                            activity_merge(),
                                        ),
                                        pair_seconds(spec_part_bid_filled(events)),
                                        activity_key(),
                                        activity_merge(),
                                    ),
                                    pair_seconds(spec_part_bid_cancelled(events)),
                                    activity_key(),
                                    activity_merge(),
                                ),
                                pair_seconds(spec_dedup_ask_placed(spec_part_ask_placed(events))),
                                activity_key(),
                                activity_merge(),
                            ),
                            pair_seconds(spec_part_ask_filled(events)),
                            activity_key(),
                            activity_merge(),
                        ),
                        pair_seconds(spec_part_ask_cancelled(events)),
                        activity_key(),
                        activity_merge(),
                    ),
                    pair_seconds(
                        spec_dedup_collection_bid_placed(spec_part_collection_bid_placed(events)),
                    ),
                    activity_key(),
                    activity_merge(),
                ),
                triple_thirds(spec_part_collection_bid_filled(events)),
                activity_key(),
                activity_merge(),
            ),
            pair_seconds(spec_part_collection_bid_cancelled(events)),
            activity_key(),
            activity_merge(),
        ) == apply_rows(activities0, spec_batch_activities(events), activity_key(), activity_merge()),
{
    let a1 = pair_seconds(spec_dedup_bid_placed(spec_part_bid_placed(events)));
    let a2 = pair_seconds(spec_part_bid_filled(events));
    let a3 = pair_seconds(spec_part_bid_cancelled(events));
    let a4 = pair_seconds(spec_dedup_ask_placed(spec_part_ask_placed(events)));
    let a5 = pair_seconds(spec_part_ask_filled(events));
    let a6 = pair_seconds(spec_part_ask_cancelled(events));
    let a7 = pair_seconds(
        spec_dedup_collection_bid_placed(spec_part_collection_bid_placed(events)),
    );
    let a8 = triple_thirds(spec_part_collection_bid_filled(events));
    let a9 = pair_seconds(spec_part_collection_bid_cancelled(events));
    let key = activity_key();
    let merge = activity_merge();
    lemma_apply_append(activities0, a1, a2, key, merge);
    lemma_apply_append(activities0, a1 + a2, a3, key, merge);
    lemma_apply_append(activities0, a1 + a2 + a3, a4, key, merge);
    lemma_apply_append(activities0, a1 + a2 + a3 + a4, a5, key, merge);
    lemma_apply_append(activities0, a1 + a2 + a3 + a4 + a5, a6, key, merge);
    lemma_apply_append(activities0, a1 + a2 + a3 + a4 + a5 + a6, a7, key, merge);
    lemma_apply_append(activities0, a1 + a2 + a3 + a4 + a5 + a6 + a7, a8, key, merge);
    lemma_apply_append(activities0, a1 + a2 + a3 + a4 + a5 + a6 + a7 + a8, a9, key, merge);
}

} // verus!
