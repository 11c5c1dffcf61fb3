//! The marketplace storer: partitions a decoded batch by event kind and
//! projects each part into the store.
//!
//! Placed events are deduplicated per key first — certain dialects emit a
//! placed event beside an updated event — keeping the one with the
//! newest placed coordinate. Every applied row goes through the store's
//! conditional upserts, so the result is idempotent under replay and
//! insensitive to event order within the batch.

use vstd::prelude::*;

use crate::models::{
    coord_lt, Activity, ActivityModel, CollectionBid, CollectionBidModel, FilledCollectionBid,
    FilledCollectionBidModel, NftAsk, NftAskModel, NftBid, NftBidModel,
};
use crate::projection::{
    apply_rows, lemma_apply_rows_push, lemma_upsert_match_at, lemma_upsert_no_match,
};
use crate::store::{
    activity_key, activity_merge, ask_cancelled_merge, ask_filled_merge, ask_key,
    ask_placed_merge, bid_cancelled_merge, bid_filled_merge, bid_key, bid_placed_merge,
    collection_bid_cancelled_merge, collection_bid_filled_merge, collection_bid_key,
    collection_bid_placed_merge, filled_collection_bid_key, filled_collection_bid_merge,
    MarketplaceStore,
};
use crate::extractor::ContractEvent;
use crate::text::str_eq;

verus! {

/// The entity components of a sequence of pairs.
pub open spec fn pair_firsts<A, B>(s: Seq<(A, B)>) -> Seq<A> {
    s.map_values(|p: (A, B)| p.0)
}

/// The activity components of a sequence of pairs.
pub open spec fn pair_seconds<A, B>(s: Seq<(A, B)>) -> Seq<B> {
    s.map_values(|p: (A, B)| p.1)
}

/// The key of a bid event pair: the bid's object address.
pub open spec fn bid_pair_key() -> spec_fn((NftBidModel, ActivityModel)) -> Seq<char> {
    |p: (NftBidModel, ActivityModel)| p.0.bid_obj_addr
}

/// In-batch deduplication of placed bids: the pair with the newer placed
/// coordinate wins, ties keep the earlier one.
pub open spec fn bid_placed_pick() -> spec_fn(
    (NftBidModel, ActivityModel),
    (NftBidModel, ActivityModel),
) -> (NftBidModel, ActivityModel) {
    |cur: (NftBidModel, ActivityModel), new: (NftBidModel, ActivityModel)|
        if coord_lt(cur.0.placed_coord(), new.0.placed_coord()) {
            new
        } else {
            cur
        }
}

/// The deduplicated form of a placed-bid batch.
pub open spec fn spec_dedup_bid_placed(events: Seq<(NftBidModel, ActivityModel)>) -> Seq<
    (NftBidModel, ActivityModel),
> {
    apply_rows(Seq::empty(), events, bid_pair_key(), bid_placed_pick())
}

fn find_bid_pair(rows: &Vec<(NftBid, Activity)>, key: &String) -> (r: Option<usize>)
    ensures
        r matches Some(i) ==> i < rows@.len() && rows.deep_view()[i as int].0.bid_obj_addr == key@
            && (forall|j: int| 0 <= j < i ==> rows.deep_view()[j].0.bid_obj_addr != key@),
        r is None ==> forall|j: int|
            0 <= j < rows@.len() ==> rows.deep_view()[j].0.bid_obj_addr != key@,
{
    let mut i: usize = 0;
    while i < rows.len()
        invariant
            i <= rows@.len(),
            forall|j: int| 0 <= j < i ==> rows.deep_view()[j].0.bid_obj_addr != key@,
        decreases rows@.len() - i,
    {
        if str_eq(rows[i].0.bid_obj_addr.as_str(), key.as_str()) {
            assert(rows.deep_view()[i as int].0.bid_obj_addr == rows@[i as int].0.bid_obj_addr@);
            return Some(i);
        }
        assert(rows.deep_view()[i as int].0.bid_obj_addr == rows@[i as int].0.bid_obj_addr@);
        i = i + 1;
    }
    None
}

/// Deduplicates placed bids per key, keeping the newest placed
/// coordinate, then upserts each bid with its audit row.
pub fn process_bid_placed_events(store: &mut MarketplaceStore, events: Vec<(NftBid, Activity)>)
    ensures
        ({
            let deduped = spec_dedup_bid_placed(events.deep_view());
            &&& final(store).nft_bids.deep_view() == apply_rows(
                old(store).nft_bids.deep_view(),
                pair_firsts(deduped),
                bid_key(),
                bid_placed_merge(),
            )
            &&& final(store).activities.deep_view() == apply_rows(
                old(store).activities.deep_view(),
                pair_seconds(deduped),
                activity_key(),
                activity_merge(),
            )
            &&& final(store).nft_asks == old(store).nft_asks
            &&& final(store).collection_bids == old(store).collection_bids
            &&& final(store).filled_collection_bids == old(store).filled_collection_bids
        }),
{
    let ghost all = events.deep_view();
    let mut rest = events;
    let mut deduped: Vec<(NftBid, Activity)> = Vec::new();
    let ghost mut done: int = 0;
    proof {
        assert(rest.deep_view() =~= all.skip(0));
        assert(all.take(0) =~= Seq::<(NftBidModel, ActivityModel)>::empty());
    }
    while rest.len() > 0
        invariant
            0 <= done,
            done + rest@.len() == all.len(),
            rest.deep_view() == all.skip(done),
            deduped.deep_view() == apply_rows(
                Seq::empty(),
                all.take(done),
                bid_pair_key(),
                bid_placed_pick(),
            ),
        decreases rest@.len(),
    {
        let ghost pre = deduped.deep_view();
        let ghost rv = rest@;
        let ghost rdv = rest.deep_view();
        let e = rest.remove(0);
        proof {
            assert(rdv[0] == rv[0].deep_view());
            assert(e.deep_view() == all.skip(done)[0]);
            assert(all.skip(done)[0] == all[done]);
            assert(rest@ =~= rv.skip(1));
            assert forall|j: int| 0 <= j < rest.deep_view().len() implies rest.deep_view()[j]
                == all.skip(done + 1)[j] by {
                assert(rest.deep_view()[j] == rest@[j].deep_view());
                assert(rest@[j] == rv[j + 1]);
                assert(rdv[j + 1] == rv[j + 1].deep_view());
                assert(all.skip(done)[j + 1] == all[done + 1 + j]);
                assert(all.skip(done + 1)[j] == all[done + 1 + j]);
            }
            assert(rest.deep_view() =~= all.skip(done + 1));
            assert(all.take(done + 1) =~= all.take(done).push(all[done]));
            lemma_apply_rows_push(
                Seq::empty(),
                all.take(done),
                all[done],
                bid_pair_key(),
                bid_placed_pick(),
            );
        }
        match find_bid_pair(&deduped, &e.0.bid_obj_addr) {
            Some(i) => {
                proof {
                    lemma_upsert_match_at(pre, e.deep_view(), bid_pair_key(), bid_placed_pick(), i as int);
                }
                if coord_lt_pair_exec(
                    (deduped[i].0.order_placed_tx_version, deduped[i].0.order_placed_event_idx),
                    (e.0.order_placed_tx_version, e.0.order_placed_event_idx),
                ) {
                    deduped[i] = e;
                    proof {
                        assert(deduped.deep_view() =~= pre.update(
                            i as int,
                            bid_placed_pick()(pre[i as int], all[done]),
                        ));
                    }
                } else {
                    proof {
                        assert(pre.update(i as int, bid_placed_pick()(pre[i as int], all[done]))
                            =~= pre);
                    }
                }
            },
            None => {
                proof {
                    lemma_upsert_no_match(pre, e.deep_view(), bid_pair_key(), bid_placed_pick());
                }
                deduped.push(e);
                proof {
                    assert(deduped.deep_view() =~= pre.push(deduped@.last().deep_view()));
                }
            },
        }
        proof {
            done = done + 1;
        }
    }
    proof {
        assert(all.take(done) =~= all);
    }

    let ghost dd = spec_dedup_bid_placed(all);
    assert(deduped.deep_view() == dd);
    let mut rem = deduped;
    while rem.len() > 0
        invariant
            apply_rows(
                old(store).nft_bids.deep_view(),
                pair_firsts(dd),
                bid_key(),
                bid_placed_merge(),
            ) == apply_rows(
                store.nft_bids.deep_view(),
                pair_firsts(rem.deep_view()),
                bid_key(),
                bid_placed_merge(),
            ),
            apply_rows(
                old(store).activities.deep_view(),
                pair_seconds(dd),
                activity_key(),
                activity_merge(),
            ) == apply_rows(
                store.activities.deep_view(),
                pair_seconds(rem.deep_view()),
                activity_key(),
                activity_merge(),
            ),
            store.nft_asks == old(store).nft_asks,
            store.collection_bids == old(store).collection_bids,
            store.filled_collection_bids == old(store).filled_collection_bids,
        decreases rem@.len(),
    {
        let ghost before = rem.deep_view();
        let ghost bv = rem@;
        let e = rem.remove(0);
        let (b, a) = e;
        proof {
            assert(before[0] == bv[0].deep_view());
            assert(b@ == before[0].0 && a@ == before[0].1);
            assert(rem@ =~= bv.skip(1));
            assert forall|j: int| 0 <= j < rem.deep_view().len() implies rem.deep_view()[j]
                == before.skip(1)[j] by {
                assert(rem.deep_view()[j] == rem@[j].deep_view());
                assert(rem@[j] == bv[j + 1]);
                assert(before[j + 1] == bv[j + 1].deep_view());
            }
            assert(rem.deep_view() =~= before.skip(1));
            assert(pair_firsts(before)[0] == before[0].0);
            assert(pair_firsts(before).skip(1) =~= pair_firsts(before.skip(1)));
            assert(pair_seconds(before)[0] == before[0].1);
            assert(pair_seconds(before).skip(1) =~= pair_seconds(before.skip(1)));
        }
        store.apply_bid_placed(b);
        store.apply_activity(a);
    }
    proof {
        assert(pair_firsts(rem.deep_view()) =~= Seq::<NftBidModel>::empty());
        assert(pair_seconds(rem.deep_view()) =~= Seq::<ActivityModel>::empty());
    }
}

fn coord_lt_pair_exec(a: (i64, i64), b: (i64, i64)) -> (r: bool)
    ensures
        r == coord_lt(a, b),
{
    a.0 < b.0 || (a.0 == b.0 && a.1 < b.1)
}

/// Upserts each filled bid with its audit row, in batch order.
pub fn process_bid_filled_events(store: &mut MarketplaceStore, events: Vec<(NftBid, Activity)>)
    ensures
        final(store).nft_bids.deep_view() == apply_rows(
            old(store).nft_bids.deep_view(),
            pair_firsts(events.deep_view()),
            bid_key(),
            bid_filled_merge(),
        ),
        final(store).activities.deep_view() == apply_rows(
            old(store).activities.deep_view(),
            pair_seconds(events.deep_view()),
            activity_key(),
            activity_merge(),
        ),
        final(store).nft_asks == old(store).nft_asks,
        final(store).collection_bids == old(store).collection_bids,
        final(store).filled_collection_bids == old(store).filled_collection_bids,
{
    let ghost dd = events.deep_view();
    let mut rem = events;
    while rem.len() > 0
        invariant
            apply_rows(
                old(store).nft_bids.deep_view(),
                pair_firsts(dd),
                bid_key(),
                bid_filled_merge(),
            ) == apply_rows(
                store.nft_bids.deep_view(),
                pair_firsts(rem.deep_view()),
                bid_key(),
                bid_filled_merge(),
            ),
            apply_rows(
                old(store).activities.deep_view(),
                pair_seconds(dd),
                activity_key(),
                activity_merge(),
            ) == apply_rows(
                store.activities.deep_view(),
                pair_seconds(rem.deep_view()),
                activity_key(),
                activity_merge(),
            ),
            store.nft_asks == old(store).nft_asks,
            store.collection_bids == old(store).collection_bids,
            store.filled_collection_bids == old(store).filled_collection_bids,
        decreases rem@.len(),
    {
        let ghost before = rem.deep_view();
        let ghost bv = rem@;
        let e = rem.remove(0);
        let (b, a) = e;
        proof {
            assert(before[0] == bv[0].deep_view());
            assert(b@ == before[0].0 && a@ == before[0].1);
            assert(rem@ =~= bv.skip(1));
            assert forall|j: int| 0 <= j < rem.deep_view().len() implies rem.deep_view()[j]
                == before.skip(1)[j] by {
                assert(rem.deep_view()[j] == rem@[j].deep_view());
                assert(rem@[j] == bv[j + 1]);
                assert(before[j + 1] == bv[j + 1].deep_view());
            }
            assert(rem.deep_view() =~= before.skip(1));
            assert(pair_firsts(before)[0] == before[0].0);
            assert(pair_firsts(before).skip(1) =~= pair_firsts(before.skip(1)));
            assert(pair_seconds(before)[0] == before[0].1);
            assert(pair_seconds(before).skip(1) =~= pair_seconds(before.skip(1)));
        }
        store.apply_bid_filled(b);
        store.apply_activity(a);
    }
    proof {
        assert(pair_firsts(rem.deep_view()) =~= Seq::<NftBidModel>::empty());
        assert(pair_seconds(rem.deep_view()) =~= Seq::<ActivityModel>::empty());
    }
}

/// Upserts each cancelled bid with its audit row, in batch order.
pub fn process_bid_cancelled_events(store: &mut MarketplaceStore, events: Vec<(NftBid, Activity)>)
    ensures
        final(store).nft_bids.deep_view() == apply_rows(
            old(store).nft_bids.deep_view(),
            pair_firsts(events.deep_view()),
            bid_key(),
            bid_cancelled_merge(),
        ),
        final(store).activities.deep_view() == apply_rows(
            old(store).activities.deep_view(),
            pair_seconds(events.deep_view()),
            activity_key(),
            activity_merge(),
        ),
        final(store).nft_asks == old(store).nft_asks,
        final(store).collection_bids == old(store).collection_bids,
        final(store).filled_collection_bids == old(store).filled_collection_bids,
{
    let ghost dd = events.deep_view();
    let mut rem = events;
    while rem.len() > 0
        invariant
            apply_rows(
                old(store).nft_bids.deep_view(),
                pair_firsts(dd),
                bid_key(),
                bid_cancelled_merge(),
            ) == apply_rows(
                store.nft_bids.deep_view(),
                pair_firsts(rem.deep_view()),
                bid_key(),
                bid_cancelled_merge(),
            ),
            apply_rows(
                old(store).activities.deep_view(),
                pair_seconds(dd),
                activity_key(),
                activity_merge(),
            ) == apply_rows(
                store.activities.deep_view(),
                pair_seconds(rem.deep_view()),
                activity_key(),
                activity_merge(),
            ),
            store.nft_asks == old(store).nft_asks,
            store.collection_bids == old(store).collection_bids,
            store.filled_collection_bids == old(store).filled_collection_bids,
        decreases rem@.len(),
    {
        let ghost before = rem.deep_view();
        let ghost bv = rem@;
        let e = rem.remove(0);
        let (b, a) = e;
        proof {
            assert(before[0] == bv[0].deep_view());
            assert(b@ == before[0].0 && a@ == before[0].1);
            assert(rem@ =~= bv.skip(1));
            assert forall|j: int| 0 <= j < rem.deep_view().len() implies rem.deep_view()[j]
                == before.skip(1)[j] by {
                assert(rem.deep_view()[j] == rem@[j].deep_view());
                assert(rem@[j] == bv[j + 1]);
                assert(before[j + 1] == bv[j + 1].deep_view());
            }
            assert(rem.deep_view() =~= before.skip(1));
            assert(pair_firsts(before)[0] == before[0].0);
            assert(pair_firsts(before).skip(1) =~= pair_firsts(before.skip(1)));
            assert(pair_seconds(before)[0] == before[0].1);
            assert(pair_seconds(before).skip(1) =~= pair_seconds(before.skip(1)));
        }
        store.apply_bid_cancelled(b);
        store.apply_activity(a);
    }
    proof {
        assert(pair_firsts(rem.deep_view()) =~= Seq::<NftBidModel>::empty());
        assert(pair_seconds(rem.deep_view()) =~= Seq::<ActivityModel>::empty());
    }
}

/// The key of an ask event pair: the ask's object address.
pub open spec fn ask_pair_key() -> spec_fn((NftAskModel, ActivityModel)) -> Seq<char> {
    |p: (NftAskModel, ActivityModel)| p.0.ask_obj_addr
}

/// In-batch deduplication of placed asks: the pair with the newer placed
/// coordinate wins, ties keep the earlier one.
pub open spec fn ask_placed_pick() -> spec_fn(
    (NftAskModel, ActivityModel),
    (NftAskModel, ActivityModel),
) -> (NftAskModel, ActivityModel) {
    |cur: (NftAskModel, ActivityModel), new: (NftAskModel, ActivityModel)|
        if coord_lt(cur.0.placed_coord(), new.0.placed_coord()) {
            new
        } else {
            cur
        }
}

/// The deduplicated form of a placed-ask batch.
pub open spec fn spec_dedup_ask_placed(events: Seq<(NftAskModel, ActivityModel)>) -> Seq<
    (NftAskModel, ActivityModel),
> {
    apply_rows(Seq::empty(), events, ask_pair_key(), ask_placed_pick())
}

fn find_ask_pair(rows: &Vec<(NftAsk, Activity)>, key: &String) -> (r: Option<usize>)
    ensures
        r matches Some(i) ==> i < rows@.len() && rows.deep_view()[i as int].0.ask_obj_addr == key@
            && (forall|j: int| 0 <= j < i ==> rows.deep_view()[j].0.ask_obj_addr != key@),
        r is None ==> forall|j: int|
            0 <= j < rows@.len() ==> rows.deep_view()[j].0.ask_obj_addr != key@,
{
    let mut i: usize = 0;
    while i < rows.len()
        invariant
            i <= rows@.len(),
            forall|j: int| 0 <= j < i ==> rows.deep_view()[j].0.ask_obj_addr != key@,
        decreases rows@.len() - i,
    {
        if str_eq(rows[i].0.ask_obj_addr.as_str(), key.as_str()) {
            assert(rows.deep_view()[i as int].0.ask_obj_addr == rows@[i as int].0.ask_obj_addr@);
            return Some(i);
        }
        assert(rows.deep_view()[i as int].0.ask_obj_addr == rows@[i as int].0.ask_obj_addr@);
        i = i + 1;
    }
    None
}

/// Deduplicates placed asks per key, keeping the newest placed
/// coordinate, then upserts each ask with its audit row.
pub fn process_ask_placed_events(store: &mut MarketplaceStore, events: Vec<(NftAsk, Activity)>)
    ensures
        ({
            let deduped = spec_dedup_ask_placed(events.deep_view());
            &&& final(store).nft_asks.deep_view() == apply_rows(
                old(store).nft_asks.deep_view(),
                pair_firsts(deduped),
                ask_key(),
                ask_placed_merge(),
            )
            &&& final(store).activities.deep_view() == apply_rows(
                old(store).activities.deep_view(),
                pair_seconds(deduped),
                activity_key(),
                activity_merge(),
            )
            &&& final(store).nft_bids == old(store).nft_bids
            &&& final(store).collection_bids == old(store).collection_bids
            &&& final(store).filled_collection_bids == old(store).filled_collection_bids
        }),
{
    let ghost all = events.deep_view();
    let mut rest = events;
    let mut deduped: Vec<(NftAsk, Activity)> = Vec::new();
    let ghost mut done: int = 0;
    proof {
        assert(rest.deep_view() =~= all.skip(0));
        assert(all.take(0) =~= Seq::<(NftAskModel, ActivityModel)>::empty());
    }
    while rest.len() > 0
        invariant
            0 <= done,
            done + rest@.len() == all.len(),
            rest.deep_view() == all.skip(done),
            deduped.deep_view() == apply_rows(
                Seq::empty(),
                all.take(done),
                ask_pair_key(),
                ask_placed_pick(),
            ),
        decreases rest@.len(),
    {
        let ghost pre = deduped.deep_view();
        let ghost rv = rest@;
        let ghost rdv = rest.deep_view();
        let e = rest.remove(0);
        proof {
            assert(rdv[0] == rv[0].deep_view());
            assert(e.deep_view() == all.skip(done)[0]);
            assert(all.skip(done)[0] == all[done]);
            assert(rest@ =~= rv.skip(1));
            assert forall|j: int| 0 <= j < rest.deep_view().len() implies rest.deep_view()[j]
                == all.skip(done + 1)[j] by {
                assert(rest.deep_view()[j] == rest@[j].deep_view());
                assert(rest@[j] == rv[j + 1]);
                assert(rdv[j + 1] == rv[j + 1].deep_view());
                assert(all.skip(done)[j + 1] == all[done + 1 + j]);
                assert(all.skip(done + 1)[j] == all[done + 1 + j]);
            }
            assert(rest.deep_view() =~= all.skip(done + 1));
            assert(all.take(done + 1) =~= all.take(done).push(all[done]));
            lemma_apply_rows_push(
                Seq::empty(),
                all.take(done),
                all[done],
                ask_pair_key(),
                ask_placed_pick(),
            );
        }
        match find_ask_pair(&deduped, &e.0.ask_obj_addr) {
            Some(i) => {
                proof {
                    lemma_upsert_match_at(pre, e.deep_view(), ask_pair_key(), ask_placed_pick(), i as int);
                }
                if coord_lt_pair_exec(
                    (deduped[i].0.order_placed_tx_version, deduped[i].0.order_placed_event_idx),
                    (e.0.order_placed_tx_version, e.0.order_placed_event_idx),
                ) {
                    deduped[i] = e;
                    proof {
                        assert(deduped.deep_view() =~= pre.update(
                            i as int,
                            ask_placed_pick()(pre[i as int], all[done]),
                        ));
                    }
                } else {
                    proof {
                        assert(pre.update(i as int, ask_placed_pick()(pre[i as int], all[done]))
                            =~= pre);
                    }
                }
            },
            None => {
                proof {
                    lemma_upsert_no_match(pre, e.deep_view(), ask_pair_key(), ask_placed_pick());
                }
                deduped.push(e);
                proof {
                    assert(deduped.deep_view() =~= pre.push(deduped@.last().deep_view()));
                }
            },
        }
        proof {
            done = done + 1;
        }
    }
    proof {
        assert(all.take(done) =~= all);
    }

    let ghost dd = spec_dedup_ask_placed(all);
    assert(deduped.deep_view() == dd);
    let mut rem = deduped;
    while rem.len() > 0
        invariant
            apply_rows(
                old(store).nft_asks.deep_view(),
                pair_firsts(dd),
                ask_key(),
                ask_placed_merge(),
            ) == apply_rows(
                store.nft_asks.deep_view(),
                pair_firsts(rem.deep_view()),
                ask_key(),
                ask_placed_merge(),
            ),
            apply_rows(
                old(store).activities.deep_view(),
                pair_seconds(dd),
                activity_key(),
                activity_merge(),
            ) == apply_rows(
                store.activities.deep_view(),
                pair_seconds(rem.deep_view()),
                activity_key(),
                activity_merge(),
            ),
            store.nft_bids == old(store).nft_bids,
            store.collection_bids == old(store).collection_bids,
            store.filled_collection_bids == old(store).filled_collection_bids,
        decreases rem@.len(),
    {
        let ghost before = rem.deep_view();
        let ghost bv = rem@;
        let e = rem.remove(0);
        let (b, a) = e;
        proof {
            assert(before[0] == bv[0].deep_view());
            assert(b@ == before[0].0 && a@ == before[0].1);
            assert(rem@ =~= bv.skip(1));
            assert forall|j: int| 0 <= j < rem.deep_view().len() implies rem.deep_view()[j]
                == before.skip(1)[j] by {
                assert(rem.deep_view()[j] == rem@[j].deep_view());
                assert(rem@[j] == bv[j + 1]);
                assert(before[j + 1] == bv[j + 1].deep_view());
            }
            assert(rem.deep_view() =~= before.skip(1));
            assert(pair_firsts(before)[0] == before[0].0);
            assert(pair_firsts(before).skip(1) =~= pair_firsts(before.skip(1)));
            assert(pair_seconds(before)[0] == before[0].1);
            assert(pair_seconds(before).skip(1) =~= pair_seconds(before.skip(1)));
        }
        store.apply_ask_placed(b);
        store.apply_activity(a);
    }
    proof {
        assert(pair_firsts(rem.deep_view()) =~= Seq::<NftAskModel>::empty());
        assert(pair_seconds(rem.deep_view()) =~= Seq::<ActivityModel>::empty());
    }
}

/// Upserts each filled ask with its audit row, in batch order.
pub fn process_ask_filled_events(store: &mut MarketplaceStore, events: Vec<(NftAsk, Activity)>)
    ensures
        final(store).nft_asks.deep_view() == apply_rows(
            old(store).nft_asks.deep_view(),
            pair_firsts(events.deep_view()),
            ask_key(),
            ask_filled_merge(),
        ),
        final(store).activities.deep_view() == apply_rows(
            old(store).activities.deep_view(),
            pair_seconds(events.deep_view()),
            activity_key(),
            activity_merge(),
        ),
        final(store).nft_bids == old(store).nft_bids,
        final(store).collection_bids == old(store).collection_bids,
        final(store).filled_collection_bids == old(store).filled_collection_bids,
{
    let ghost dd = events.deep_view();
    let mut rem = events;
    while rem.len() > 0
        invariant
            apply_rows(
                old(store).nft_asks.deep_view(),
                pair_firsts(dd),
                ask_key(),
                ask_filled_merge(),
            ) == apply_rows(
                store.nft_asks.deep_view(),
                pair_firsts(rem.deep_view()),
                ask_key(),
                ask_filled_merge(),
            ),
            apply_rows(
                old(store).activities.deep_view(),
                pair_seconds(dd),
                activity_key(),
                activity_merge(),
            ) == apply_rows(
                store.activities.deep_view(),
                pair_seconds(rem.deep_view()),
                activity_key(),
                activity_merge(),
            ),
            store.nft_bids == old(store).nft_bids,
            store.collection_bids == old(store).collection_bids,
            store.filled_collection_bids == old(store).filled_collection_bids,
        decreases rem@.len(),
    {
        let ghost before = rem.deep_view();
        let ghost bv = rem@;
        let e = rem.remove(0);
        let (b, a) = e;
        proof {
            assert(before[0] == bv[0].deep_view());
            assert(b@ == before[0].0 && a@ == before[0].1);
            assert(rem@ =~= bv.skip(1));
            assert forall|j: int| 0 <= j < rem.deep_view().len() implies rem.deep_view()[j]
                == before.skip(1)[j] by {
                assert(rem.deep_view()[j] == rem@[j].deep_view());
                assert(rem@[j] == bv[j + 1]);
                assert(before[j + 1] == bv[j + 1].deep_view());
            }
            assert(rem.deep_view() =~= before.skip(1));
            assert(pair_firsts(before)[0] == before[0].0);
            assert(pair_firsts(before).skip(1) =~= pair_firsts(before.skip(1)));
            assert(pair_seconds(before)[0] == before[0].1);
            assert(pair_seconds(before).skip(1) =~= pair_seconds(before.skip(1)));
        }
        store.apply_ask_filled(b);
        store.apply_activity(a);
    }
    proof {
        assert(pair_firsts(rem.deep_view()) =~= Seq::<NftAskModel>::empty());
        assert(pair_seconds(rem.deep_view()) =~= Seq::<ActivityModel>::empty());
    }
}

/// Upserts each cancelled ask with its audit row, in batch order.
pub fn process_ask_cancelled_events(store: &mut MarketplaceStore, events: Vec<(NftAsk, Activity)>)
    ensures
        final(store).nft_asks.deep_view() == apply_rows(
            old(store).nft_asks.deep_view(),
            pair_firsts(events.deep_view()),
            ask_key(),
            ask_cancelled_merge(),
        ),
        final(store).activities.deep_view() == apply_rows(
            old(store).activities.deep_view(),
            pair_seconds(events.deep_view()),
            activity_key(),
            activity_merge(),
        ),
        final(store).nft_bids == old(store).nft_bids,
        final(store).collection_bids == old(store).collection_bids,
        final(store).filled_collection_bids == old(store).filled_collection_bids,
{
    let ghost dd = events.deep_view();
    let mut rem = events;
    while rem.len() > 0
        invariant
            apply_rows(
                old(store).nft_asks.deep_view(),
                pair_firsts(dd),
                ask_key(),
                ask_cancelled_merge(),
            ) == apply_rows(
                store.nft_asks.deep_view(),
                pair_firsts(rem.deep_view()),
                ask_key(),
                ask_cancelled_merge(),
            ),
            apply_rows(
                old(store).activities.deep_view(),
                pair_seconds(dd),
                activity_key(),
                activity_merge(),
            ) == apply_rows(
                store.activities.deep_view(),
                pair_seconds(rem.deep_view()),
                activity_key(),
                activity_merge(),
            ),
            store.nft_bids == old(store).nft_bids,
            store.collection_bids == old(store).collection_bids,
            store.filled_collection_bids == old(store).filled_collection_bids,
        decreases rem@.len(),
    {
        let ghost before = rem.deep_view();
        let ghost bv = rem@;
        let e = rem.remove(0);
        let (b, a) = e;
        proof {
            assert(before[0] == bv[0].deep_view());
            assert(b@ == before[0].0 && a@ == before[0].1);
            assert(rem@ =~= bv.skip(1));
            assert forall|j: int| 0 <= j < rem.deep_view().len() implies rem.deep_view()[j]
                == before.skip(1)[j] by {
                assert(rem.deep_view()[j] == rem@[j].deep_view());
                assert(rem@[j] == bv[j + 1]);
                assert(before[j + 1] == bv[j + 1].deep_view());
            }
            assert(rem.deep_view() =~= before.skip(1));
            assert(pair_firsts(before)[0] == before[0].0);
            assert(pair_firsts(before).skip(1) =~= pair_firsts(before.skip(1)));
            assert(pair_seconds(before)[0] == before[0].1);
            assert(pair_seconds(before).skip(1) =~= pair_seconds(before.skip(1)));
        }
        store.apply_ask_cancelled(b);
        store.apply_activity(a);
    }
    proof {
        assert(pair_firsts(rem.deep_view()) =~= Seq::<NftAskModel>::empty());
        assert(pair_seconds(rem.deep_view()) =~= Seq::<ActivityModel>::empty());
    }
}

/// The first components of a sequence of triples.
pub open spec fn triple_firsts<A, B, C>(s: Seq<(A, B, C)>) -> Seq<A> {
    s.map_values(|p: (A, B, C)| p.0)
}

/// The second components of a sequence of triples.
pub open spec fn triple_seconds<A, B, C>(s: Seq<(A, B, C)>) -> Seq<B> {
    s.map_values(|p: (A, B, C)| p.1)
}

/// The third components of a sequence of triples.
pub open spec fn triple_thirds<A, B, C>(s: Seq<(A, B, C)>) -> Seq<C> {
    s.map_values(|p: (A, B, C)| p.2)
}

/// The key of a collection-bid event pair: the bid's object address.
pub open spec fn collection_bid_pair_key() -> spec_fn(
    (CollectionBidModel, ActivityModel),
) -> Seq<char> {
    |p: (CollectionBidModel, ActivityModel)| p.0.bid_obj_addr
}

/// In-batch deduplication of placed collection bids: the pair with the
/// newer placed coordinate wins, ties keep the earlier one.
pub open spec fn collection_bid_placed_pick() -> spec_fn(
    (CollectionBidModel, ActivityModel),
    (CollectionBidModel, ActivityModel),
) -> (CollectionBidModel, ActivityModel) {
    |cur: (CollectionBidModel, ActivityModel), new: (CollectionBidModel, ActivityModel)|
        if coord_lt(cur.0.placed_coord(), new.0.placed_coord()) {
            new
        } else {
            cur
        }
}

/// The deduplicated form of a placed-collection-bid batch.
pub open spec fn spec_dedup_collection_bid_placed(
    events: Seq<(CollectionBidModel, ActivityModel)>,
) -> Seq<(CollectionBidModel, ActivityModel)> {
    apply_rows(Seq::empty(), events, collection_bid_pair_key(), collection_bid_placed_pick())
}

fn find_collection_bid_pair(rows: &Vec<(CollectionBid, Activity)>, key: &String) -> (r: Option<
    usize,
>)
    ensures
        r matches Some(i) ==> i < rows@.len() && rows.deep_view()[i as int].0.bid_obj_addr == key@
            && (forall|j: int| 0 <= j < i ==> rows.deep_view()[j].0.bid_obj_addr != key@),
        r is None ==> forall|j: int|
            0 <= j < rows@.len() ==> rows.deep_view()[j].0.bid_obj_addr != key@,
{
    let mut i: usize = 0;
    while i < rows.len()
        invariant
            i <= rows@.len(),
            forall|j: int| 0 <= j < i ==> rows.deep_view()[j].0.bid_obj_addr != key@,
        decreases rows@.len() - i,
    {
        if str_eq(rows[i].0.bid_obj_addr.as_str(), key.as_str()) {
            assert(rows.deep_view()[i as int].0.bid_obj_addr == rows@[i as int].0.bid_obj_addr@);
            return Some(i);
        }
        assert(rows.deep_view()[i as int].0.bid_obj_addr == rows@[i as int].0.bid_obj_addr@);
        i = i + 1;
    }
    None
}

/// Deduplicates placed collection bids per key, keeping the newest
/// placed coordinate, then upserts each bid with its audit row.
pub fn process_collection_bid_placed_events(
    store: &mut MarketplaceStore,
    events: Vec<(CollectionBid, Activity)>,
)
    ensures
        ({
            let deduped = spec_dedup_collection_bid_placed(events.deep_view());
            &&& final(store).collection_bids.deep_view() == apply_rows(
                old(store).collection_bids.deep_view(),
                pair_firsts(deduped),
                collection_bid_key(),
                collection_bid_placed_merge(),
            )
            &&& final(store).activities.deep_view() == apply_rows(
                old(store).activities.deep_view(),
                pair_seconds(deduped),
                activity_key(),
                activity_merge(),
            )
            &&& final(store).nft_asks == old(store).nft_asks
            &&& final(store).nft_bids == old(store).nft_bids
            &&& final(store).filled_collection_bids == old(store).filled_collection_bids
        }),
{
    let ghost all = events.deep_view();
    let mut rest = events;
    let mut deduped: Vec<(CollectionBid, Activity)> = Vec::new();
    let ghost mut done: int = 0;
    proof {
        assert(rest.deep_view() =~= all.skip(0));
        assert(all.take(0) =~= Seq::<(CollectionBidModel, ActivityModel)>::empty());
    }
    while rest.len() > 0
        invariant
            0 <= done,
            done + rest@.len() == all.len(),
            rest.deep_view() == all.skip(done),
            deduped.deep_view() == apply_rows(
                Seq::empty(),
                all.take(done),
                collection_bid_pair_key(),
                collection_bid_placed_pick(),
            ),
        decreases rest@.len(),
    {
        let ghost pre = deduped.deep_view();
        let ghost rv = rest@;
        let ghost rdv = rest.deep_view();
        let e = rest.remove(0);
        proof {
            assert(rdv[0] == rv[0].deep_view());
            assert(e.deep_view() == all.skip(done)[0]);
            assert(all.skip(done)[0] == all[done]);
            assert(rest@ =~= rv.skip(1));
            assert forall|j: int| 0 <= j < rest.deep_view().len() implies rest.deep_view()[j]
                == all.skip(done + 1)[j] by {
                assert(rest.deep_view()[j] == rest@[j].deep_view());
                assert(rest@[j] == rv[j + 1]);
                assert(rdv[j + 1] == rv[j + 1].deep_view());
                assert(all.skip(done)[j + 1] == all[done + 1 + j]);
                assert(all.skip(done + 1)[j] == all[done + 1 + j]);
            }
            assert(rest.deep_view() =~= all.skip(done + 1));
            assert(all.take(done + 1) =~= all.take(done).push(all[done]));
            lemma_apply_rows_push(
                Seq::empty(),
                all.take(done),
                all[done],
                collection_bid_pair_key(),
                collection_bid_placed_pick(),
            );
        }
        match find_collection_bid_pair(&deduped, &e.0.bid_obj_addr) {
            Some(i) => {
                proof {
                    lemma_upsert_match_at(
                        pre,
                        e.deep_view(),
                        collection_bid_pair_key(),
                        collection_bid_placed_pick(),
                        i as int,
                    );
                }
                if coord_lt_pair_exec(
                    (deduped[i].0.order_placed_tx_version, deduped[i].0.order_placed_event_idx),
                    (e.0.order_placed_tx_version, e.0.order_placed_event_idx),
                ) {
                    deduped[i] = e;
                    proof {
                        assert(deduped.deep_view() =~= pre.update(
                            i as int,
                            collection_bid_placed_pick()(pre[i as int], all[done]),
                        ));
                    }
                } else {
                    proof {
                        assert(pre.update(
                            i as int,
                            collection_bid_placed_pick()(pre[i as int], all[done]),
                        ) =~= pre);
                    }
                }
            },
            None => {
                proof {
                    lemma_upsert_no_match(
                        pre,
                        e.deep_view(),
                        collection_bid_pair_key(),
                        collection_bid_placed_pick(),
                    );
                }
                deduped.push(e);
                proof {
                    assert(deduped.deep_view() =~= pre.push(deduped@.last().deep_view()));
                }
            },
        }
        proof {
            done = done + 1;
        }
    }
    proof {
        assert(all.take(done) =~= all);
    }

    let ghost dd = spec_dedup_collection_bid_placed(all);
    assert(deduped.deep_view() == dd);
    let mut rem = deduped;
    while rem.len() > 0
        invariant
            apply_rows(
                old(store).collection_bids.deep_view(),
                pair_firsts(dd),
                collection_bid_key(),
                collection_bid_placed_merge(),
            ) == apply_rows(
                store.collection_bids.deep_view(),
                pair_firsts(rem.deep_view()),
                collection_bid_key(),
                collection_bid_placed_merge(),
            ),
            apply_rows(
                old(store).activities.deep_view(),
                pair_seconds(dd),
                activity_key(),
                activity_merge(),
            ) == apply_rows(
                store.activities.deep_view(),
                pair_seconds(rem.deep_view()),
                activity_key(),
                activity_merge(),
            ),
            store.nft_asks == old(store).nft_asks,
            store.nft_bids == old(store).nft_bids,
            store.filled_collection_bids == old(store).filled_collection_bids,
        decreases rem@.len(),
    {
        let ghost before = rem.deep_view();
        let ghost bv = rem@;
        let e = rem.remove(0);
        let (b, a) = e;
        proof {
            assert(before[0] == bv[0].deep_view());
            assert(b@ == before[0].0 && a@ == before[0].1);
            assert(rem@ =~= bv.skip(1));
            assert forall|j: int| 0 <= j < rem.deep_view().len() implies rem.deep_view()[j]
                == before.skip(1)[j] by {
                assert(rem.deep_view()[j] == rem@[j].deep_view());
                assert(rem@[j] == bv[j + 1]);
                assert(before[j + 1] == bv[j + 1].deep_view());
            }
            assert(rem.deep_view() =~= before.skip(1));
            assert(pair_firsts(before)[0] == before[0].0);
            assert(pair_firsts(before).skip(1) =~= pair_firsts(before.skip(1)));
            assert(pair_seconds(before)[0] == before[0].1);
            assert(pair_seconds(before).skip(1) =~= pair_seconds(before.skip(1)));
        }
        store.apply_collection_bid_placed(b);
        store.apply_activity(a);
    }
    proof {
        assert(pair_firsts(rem.deep_view()) =~= Seq::<CollectionBidModel>::empty());
        assert(pair_seconds(rem.deep_view()) =~= Seq::<ActivityModel>::empty());
    }
}

/// Applies each collection-bid fill: the parent bid's latest-fill
/// coordinate, the concrete fill row, and the audit row, in batch order.
pub fn process_collection_bid_filled_events(
    store: &mut MarketplaceStore,
    events: Vec<(CollectionBid, FilledCollectionBid, Activity)>,
)
    ensures
        final(store).collection_bids.deep_view() == apply_rows(
            old(store).collection_bids.deep_view(),
            triple_firsts(events.deep_view()),
            collection_bid_key(),
            collection_bid_filled_merge(),
        ),
        final(store).filled_collection_bids.deep_view() == apply_rows(
            old(store).filled_collection_bids.deep_view(),
            triple_seconds(events.deep_view()),
            filled_collection_bid_key(),
            filled_collection_bid_merge(),
        ),
        final(store).activities.deep_view() == apply_rows(
            old(store).activities.deep_view(),
            triple_thirds(events.deep_view()),
            activity_key(),
            activity_merge(),
        ),
        final(store).nft_asks == old(store).nft_asks,
        final(store).nft_bids == old(store).nft_bids,
{
    let ghost dd = events.deep_view();
    let mut rem = events;
    while rem.len() > 0
        invariant
            apply_rows(
                old(store).collection_bids.deep_view(),
                triple_firsts(dd),
                collection_bid_key(),
                collection_bid_filled_merge(),
            ) == apply_rows(
                store.collection_bids.deep_view(),
                triple_firsts(rem.deep_view()),
                collection_bid_key(),
                collection_bid_filled_merge(),
            ),
            apply_rows(
                old(store).filled_collection_bids.deep_view(),
                triple_seconds(dd),
                filled_collection_bid_key(),
                filled_collection_bid_merge(),
            ) == apply_rows(
                store.filled_collection_bids.deep_view(),
                triple_seconds(rem.deep_view()),
                filled_collection_bid_key(),
                filled_collection_bid_merge(),
            ),
            apply_rows(
                old(store).activities.deep_view(),
                triple_thirds(dd),
                activity_key(),
                activity_merge(),
            ) == apply_rows(
                store.activities.deep_view(),
                triple_thirds(rem.deep_view()),
                activity_key(),
                activity_merge(),
            ),
            store.nft_asks == old(store).nft_asks,
            store.nft_bids == old(store).nft_bids,
        decreases rem@.len(),
    {
        let ghost before = rem.deep_view();
        let ghost bv = rem@;
        let e = rem.remove(0);
        let (b, f, a) = e;
        proof {
            assert(before[0] == bv[0].deep_view());
            assert(b@ == before[0].0 && f@ == before[0].1 && a@ == before[0].2);
            assert(rem@ =~= bv.skip(1));
            assert forall|j: int| 0 <= j < rem.deep_view().len() implies rem.deep_view()[j]
                == before.skip(1)[j] by {
                assert(rem.deep_view()[j] == rem@[j].deep_view());
                assert(rem@[j] == bv[j + 1]);
                assert(before[j + 1] == bv[j + 1].deep_view());
            }
            assert(rem.deep_view() =~= before.skip(1));
            assert(triple_firsts(before)[0] == before[0].0);
            assert(triple_firsts(before).skip(1) =~= triple_firsts(before.skip(1)));
            assert(triple_seconds(before)[0] == before[0].1);
            assert(triple_seconds(before).skip(1) =~= triple_seconds(before.skip(1)));
            assert(triple_thirds(before)[0] == before[0].2);
            assert(triple_thirds(before).skip(1) =~= triple_thirds(before.skip(1)));
        }
        store.apply_collection_bid_filled(b);
        store.apply_filled_collection_bid(f);
        store.apply_activity(a);
    }
    proof {
        assert(triple_firsts(rem.deep_view()) =~= Seq::<CollectionBidModel>::empty());
        assert(triple_seconds(rem.deep_view()) =~= Seq::<FilledCollectionBidModel>::empty());
        assert(triple_thirds(rem.deep_view()) =~= Seq::<ActivityModel>::empty());
    }
}

/// Upserts each cancelled collection bid with its audit row, in batch
/// order.
pub fn process_collection_bid_cancelled_events(
    store: &mut MarketplaceStore,
    events: Vec<(CollectionBid, Activity)>,
)
    ensures
        final(store).collection_bids.deep_view() == apply_rows(
            old(store).collection_bids.deep_view(),
            pair_firsts(events.deep_view()),
            collection_bid_key(),
            collection_bid_cancelled_merge(),
        ),
        final(store).activities.deep_view() == apply_rows(
            old(store).activities.deep_view(),
            pair_seconds(events.deep_view()),
            activity_key(),
            activity_merge(),
        ),
        final(store).nft_asks == old(store).nft_asks,
        final(store).nft_bids == old(store).nft_bids,
        final(store).filled_collection_bids == old(store).filled_collection_bids,
{
    let ghost dd = events.deep_view();
    let mut rem = events;
    while rem.len() > 0
        invariant
            apply_rows(
                old(store).collection_bids.deep_view(),
                pair_firsts(dd),
                collection_bid_key(),
                collection_bid_cancelled_merge(),
            ) == apply_rows(
                store.collection_bids.deep_view(),
                pair_firsts(rem.deep_view()),
                collection_bid_key(),
                collection_bid_cancelled_merge(),
            ),
            apply_rows(
                old(store).activities.deep_view(),
                pair_seconds(dd),
                activity_key(),
                activity_merge(),
            ) == apply_rows(
                store.activities.deep_view(),
                pair_seconds(rem.deep_view()),
                activity_key(),
                activity_merge(),
            ),
            store.nft_asks == old(store).nft_asks,
            store.nft_bids == old(store).nft_bids,
            store.filled_collection_bids == old(store).filled_collection_bids,
        decreases rem@.len(),
    {
        let ghost before = rem.deep_view();
        let ghost bv = rem@;
        let e = rem.remove(0);
        let (b, a) = e;
        proof {
            assert(before[0] == bv[0].deep_view());
            assert(b@ == before[0].0 && a@ == before[0].1);
            assert(rem@ =~= bv.skip(1));
            assert forall|j: int| 0 <= j < rem.deep_view().len() implies rem.deep_view()[j]
                == before.skip(1)[j] by {
                assert(rem.deep_view()[j] == rem@[j].deep_view());
                assert(rem@[j] == bv[j + 1]);
                assert(before[j + 1] == bv[j + 1].deep_view());
            }
            assert(rem.deep_view() =~= before.skip(1));
            assert(pair_firsts(before)[0] == before[0].0);
            assert(pair_firsts(before).skip(1) =~= pair_firsts(before.skip(1)));
            assert(pair_seconds(before)[0] == before[0].1);
            assert(pair_seconds(before).skip(1) =~= pair_seconds(before.skip(1)));
        }
        store.apply_collection_bid_cancelled(b);
        store.apply_activity(a);
    }
    proof {
        assert(pair_firsts(rem.deep_view()) =~= Seq::<CollectionBidModel>::empty());
        assert(pair_seconds(rem.deep_view()) =~= Seq::<ActivityModel>::empty());
    }
}

/// The placed-bid part of a decoded batch, in batch order.
pub open spec fn spec_part_bid_placed(events: Seq<ContractEvent>) -> Seq<
    (NftBidModel, ActivityModel),
>
    decreases events.len(),
{
    if events.len() == 0 {
        Seq::empty()
    } else {
        let init = spec_part_bid_placed(events.drop_last());
        match events.last() {
            ContractEvent::BidPlacedEvent(p) => init.push(p.deep_view()),
            _ => init,
        }
    }
}

/// The filled-bid part of a decoded batch, in batch order.
pub open spec fn spec_part_bid_filled(events: Seq<ContractEvent>) -> Seq<
    (NftBidModel, ActivityModel),
>
    decreases events.len(),
{
    if events.len() == 0 {
        Seq::empty()
    } else {
        let init = spec_part_bid_filled(events.drop_last());
        match events.last() {
            ContractEvent::BidFilledEvent(p) => init.push(p.deep_view()),
            _ => init,
        }
    }
}

/// The cancelled-bid part of a decoded batch, in batch order.
pub open spec fn spec_part_bid_cancelled(events: Seq<ContractEvent>) -> Seq<
    (NftBidModel, ActivityModel),
>
    decreases events.len(),
{
    if events.len() == 0 {
        Seq::empty()
    } else {
        let init = spec_part_bid_cancelled(events.drop_last());
        match events.last() {
            ContractEvent::BidCancelledEvent(p) => init.push(p.deep_view()),
            _ => init,
        }
    }
}

/// The placed-ask part of a decoded batch, in batch order.
pub open spec fn spec_part_ask_placed(events: Seq<ContractEvent>) -> Seq<
    (NftAskModel, ActivityModel),
>
    decreases events.len(),
{
    if events.len() == 0 {
        Seq::empty()
    } else {
        let init = spec_part_ask_placed(events.drop_last());
        match events.last() {
            ContractEvent::AskPlacedEvent(p) => init.push(p.deep_view()),
            _ => init,
        }
    }
}

/// The filled-ask part of a decoded batch, in batch order.
pub open spec fn spec_part_ask_filled(events: Seq<ContractEvent>) -> Seq<
    (NftAskModel, ActivityModel),
>
    decreases events.len(),
{
    if events.len() == 0 {
        Seq::empty()
    } else {
        let init = spec_part_ask_filled(events.drop_last());
        match events.last() {
            ContractEvent::AskFilledEvent(p) => init.push(p.deep_view()),
            _ => init,
        }
    }
}

/// The cancelled-ask part of a decoded batch, in batch order.
pub open spec fn spec_part_ask_cancelled(events: Seq<ContractEvent>) -> Seq<
    (NftAskModel, ActivityModel),
>
    decreases events.len(),
{
    if events.len() == 0 {
        Seq::empty()
    } else {
        let init = spec_part_ask_cancelled(events.drop_last());
        match events.last() {
            ContractEvent::AskCancelledEvent(p) => init.push(p.deep_view()),
            _ => init,
        }
    }
}

/// The placed-collection-bid part of a decoded batch, in batch order.
pub open spec fn spec_part_collection_bid_placed(events: Seq<ContractEvent>) -> Seq<
    (CollectionBidModel, ActivityModel),
>
    decreases events.len(),
{
    if events.len() == 0 {
        Seq::empty()
    } else {
        let init = spec_part_collection_bid_placed(events.drop_last());
        match events.last() {
            ContractEvent::CollectionBidPlacedEvent(p) => init.push(p.deep_view()),
            _ => init,
        }
    }
}

/// The collection-bid-fill part of a decoded batch, in batch order.
pub open spec fn spec_part_collection_bid_filled(events: Seq<ContractEvent>) -> Seq<
    (CollectionBidModel, FilledCollectionBidModel, ActivityModel),
>
    decreases events.len(),
{
    if events.len() == 0 {
        Seq::empty()
    } else {
        let init = spec_part_collection_bid_filled(events.drop_last());
        match events.last() {
            ContractEvent::CollectionBidFilledEvent(p) => init.push(p.deep_view()),
            _ => init,
        }
    }
}

/// The cancelled-collection-bid part of a decoded batch, in batch order.
pub open spec fn spec_part_collection_bid_cancelled(events: Seq<ContractEvent>) -> Seq<
    (CollectionBidModel, ActivityModel),
>
    decreases events.len(),
{
    if events.len() == 0 {
        Seq::empty()
    } else {
        let init = spec_part_collection_bid_cancelled(events.drop_last());
        match events.last() {
            ContractEvent::CollectionBidCancelledEvent(p) => init.push(p.deep_view()),
            _ => init,
        }
    }
}

/// The storer stage: holds the store and projects decoded batches into
/// it.
pub struct Storer {
    pub store: MarketplaceStore,
}

impl Storer {
    /// A storer over an empty store.
    pub fn new() -> (r: Storer)
        ensures
            r.store.nft_asks@.len() == 0,
            r.store.nft_bids@.len() == 0,
            r.store.collection_bids@.len() == 0,
            r.store.filled_collection_bids@.len() == 0,
            r.store.activities@.len() == 0,
    {
        Storer { store: MarketplaceStore::new() }
    }

    /// The stage's name.
    pub fn name(&self) -> (r: String)
        ensures
            r@ == "Storer"@,
    {
        String::from_str("Storer")
    }

    /// Partitions a decoded batch by event kind and applies the nine
    /// parts: bids, asks and collection bids, placed then filled then
    /// cancelled, with the placed parts deduplicated per key.
    pub fn process(&mut self, events: Vec<ContractEvent>)
        ensures
            final(self).store.nft_bids.deep_view() == apply_rows(
                apply_rows(
                    apply_rows(
                        old(self).store.nft_bids.deep_view(),
                        pair_firsts(spec_dedup_bid_placed(spec_part_bid_placed(events@))),
                        bid_key(),
                        bid_placed_merge(),
                    ),
                    pair_firsts(spec_part_bid_filled(events@)),
                    bid_key(),
                    bid_filled_merge(),
                ),
                pair_firsts(spec_part_bid_cancelled(events@)),
                bid_key(),
                bid_cancelled_merge(),
            ),
            final(self).store.nft_asks.deep_view() == apply_rows(
                apply_rows(
                    apply_rows(
                        old(self).store.nft_asks.deep_view(),
                        pair_firsts(spec_dedup_ask_placed(spec_part_ask_placed(events@))),
                        ask_key(),
                        ask_placed_merge(),
                    ),
                    pair_firsts(spec_part_ask_filled(events@)),
                    ask_key(),
                    ask_filled_merge(),
                ),
                pair_firsts(spec_part_ask_cancelled(events@)),
                ask_key(),
                ask_cancelled_merge(),
            ),
            final(self).store.collection_bids.deep_view() == apply_rows(
                apply_rows(
                    apply_rows(
                        old(self).store.collection_bids.deep_view(),
                        pair_firsts(
                            spec_dedup_collection_bid_placed(
                                spec_part_collection_bid_placed(events@),
                            ),
                        ),
                        collection_bid_key(),
                        collection_bid_placed_merge(),
                    ),
                    triple_firsts(spec_part_collection_bid_filled(events@)),
                    collection_bid_key(),
                    collection_bid_filled_merge(),
                ),
                pair_firsts(spec_part_collection_bid_cancelled(events@)),
                collection_bid_key(),
                collection_bid_cancelled_merge(),
            ),
            final(self).store.filled_collection_bids.deep_view() == apply_rows(
                old(self).store.filled_collection_bids.deep_view(),
                triple_seconds(spec_part_collection_bid_filled(events@)),
                filled_collection_bid_key(),
                filled_collection_bid_merge(),
            ),
            final(self).store.activities.deep_view() == apply_rows(
                apply_rows(
                    apply_rows(
                        apply_rows(
                            apply_rows(
                                apply_rows(
                                    apply_rows(
                                        apply_rows(
                                            apply_rows(
                                                old(self).store.activities.deep_view(),
                                                pair_seconds(
                                                    spec_dedup_bid_placed(
                                                        spec_part_bid_placed(events@),
                                                    ),
                                                ),
                                                activity_key(),
                                                activity_merge(),
                                            ),
                                            pair_seconds(spec_part_bid_filled(events@)),
                                            activity_key(),
                                            activity_merge(),
                                        ),
                                        pair_seconds(spec_part_bid_cancelled(events@)),
                                        activity_key(),
                                        activity_merge(),
                                    ),
                                    pair_seconds(
                                        spec_dedup_ask_placed(spec_part_ask_placed(events@)),
                                    ),
                                    activity_key(),
                                    activity_merge(),
                                ),
                                pair_seconds(spec_part_ask_filled(events@)),
                                activity_key(),
                                activity_merge(),
                            ),
                            pair_seconds(spec_part_ask_cancelled(events@)),
                            activity_key(),
                            activity_merge(),
                        ),
                        pair_seconds(
                            spec_dedup_collection_bid_placed(
                                spec_part_collection_bid_placed(events@),
                            ),
                        ),
                        activity_key(),
                        activity_merge(),
                    ),
                    triple_thirds(spec_part_collection_bid_filled(events@)),
                    activity_key(),
                    activity_merge(),
                ),
                pair_seconds(spec_part_collection_bid_cancelled(events@)),
                activity_key(),
                activity_merge(),
            ),
    {
        let ghost all = events@;
        let mut rest = events;
        let mut bid_placed_events: Vec<(NftBid, Activity)> = Vec::new();
        let mut bid_filled_events: Vec<(NftBid, Activity)> = Vec::new();
        let mut bid_cancelled_events: Vec<(NftBid, Activity)> = Vec::new();
        let mut ask_placed_events: Vec<(NftAsk, Activity)> = Vec::new();
        let mut ask_filled_events: Vec<(NftAsk, Activity)> = Vec::new();
        let mut ask_cancelled_events: Vec<(NftAsk, Activity)> = Vec::new();
        let mut collection_bid_placed_events: Vec<(CollectionBid, Activity)> = Vec::new();
        let mut collection_bid_filled_events: Vec<(CollectionBid, FilledCollectionBid, Activity)> =
            Vec::new();
        let mut collection_bid_cancelled_events: Vec<(CollectionBid, Activity)> = Vec::new();
        let ghost mut done: int = 0;
        proof {
            assert(rest@ =~= all.skip(0));
        }
        while rest.len() > 0
            invariant
                0 <= done,
                done + rest@.len() == all.len(),
                rest@ == all.skip(done),
                bid_placed_events.deep_view() == spec_part_bid_placed(all.take(done)),
                bid_filled_events.deep_view() == spec_part_bid_filled(all.take(done)),
                bid_cancelled_events.deep_view() == spec_part_bid_cancelled(all.take(done)),
                ask_placed_events.deep_view() == spec_part_ask_placed(all.take(done)),
                ask_filled_events.deep_view() == spec_part_ask_filled(all.take(done)),
                ask_cancelled_events.deep_view() == spec_part_ask_cancelled(all.take(done)),
                collection_bid_placed_events.deep_view() == spec_part_collection_bid_placed(
                    all.take(done),
                ),
                collection_bid_filled_events.deep_view() == spec_part_collection_bid_filled(
                    all.take(done),
                ),
                collection_bid_cancelled_events.deep_view() == spec_part_collection_bid_cancelled(
                    all.take(done),
                ),
            decreases rest@.len(),
        {
            let ghost rv = rest@;
            let e = rest.remove(0);
            proof {
                assert(e == all[done]);
                assert(rest@ =~= all.skip(done + 1));
                assert(all.take(done + 1).drop_last() =~= all.take(done));
                assert(all.take(done + 1).last() == all[done]);
            }
            let ghost bp = bid_placed_events.deep_view();
            let ghost bf = bid_filled_events.deep_view();
            let ghost bc = bid_cancelled_events.deep_view();
            let ghost ap = ask_placed_events.deep_view();
            let ghost af = ask_filled_events.deep_view();
            let ghost ac = ask_cancelled_events.deep_view();
            let ghost cp = collection_bid_placed_events.deep_view();
            let ghost cf = collection_bid_filled_events.deep_view();
            let ghost cc = collection_bid_cancelled_events.deep_view();
            match e {
                ContractEvent::BidPlacedEvent(p) => {
                    bid_placed_events.push(p);
                    proof {
                        assert(bid_placed_events.deep_view() =~= bp.push(
                            bid_placed_events@.last().deep_view(),
                        ));
                    }
                },
                ContractEvent::BidFilledEvent(p) => {
                    bid_filled_events.push(p);
                    proof {
                        assert(bid_filled_events.deep_view() =~= bf.push(
                            bid_filled_events@.last().deep_view(),
                        ));
                    }
                },
                ContractEvent::BidCancelledEvent(p) => {
                    bid_cancelled_events.push(p);
                    proof {
                        assert(bid_cancelled_events.deep_view() =~= bc.push(
                            bid_cancelled_events@.last().deep_view(),
                        ));
                    }
                },
                ContractEvent::AskPlacedEvent(p) => {
                    ask_placed_events.push(p);
                    proof {
                        assert(ask_placed_events.deep_view() =~= ap.push(
                            ask_placed_events@.last().deep_view(),
                        ));
                    }
                },
                ContractEvent::AskFilledEvent(p) => {
                    ask_filled_events.push(p);
                    proof {
                        assert(ask_filled_events.deep_view() =~= af.push(
                            ask_filled_events@.last().deep_view(),
                        ));
                    }
                },
                ContractEvent::AskCancelledEvent(p) => {
                    ask_cancelled_events.push(p);
                    proof {
                        assert(ask_cancelled_events.deep_view() =~= ac.push(
                            ask_cancelled_events@.last().deep_view(),
                        ));
                    }
                },
                ContractEvent::CollectionBidPlacedEvent(p) => {
                    collection_bid_placed_events.push(p);
                    proof {
                        assert(collection_bid_placed_events.deep_view() =~= cp.push(
                            collection_bid_placed_events@.last().deep_view(),
                        ));
                    }
                },
                ContractEvent::CollectionBidFilledEvent(p) => {
                    collection_bid_filled_events.push(p);
                    proof {
                        assert(collection_bid_filled_events.deep_view() =~= cf.push(
                            collection_bid_filled_events@.last().deep_view(),
                        ));
                    }
                },
                ContractEvent::CollectionBidCancelledEvent(p) => {
                    collection_bid_cancelled_events.push(p);
                    proof {
                        assert(collection_bid_cancelled_events.deep_view() =~= cc.push(
                            collection_bid_cancelled_events@.last().deep_view(),
                        ));
                    }
                },
            }
            proof {
                done = done + 1;
            }
        }
        proof {
            assert(all.take(done) =~= all);
        }

        process_bid_placed_events(&mut self.store, bid_placed_events);
        process_bid_filled_events(&mut self.store, bid_filled_events);
        process_bid_cancelled_events(&mut self.store, bid_cancelled_events);
        process_ask_placed_events(&mut self.store, ask_placed_events);
        process_ask_filled_events(&mut self.store, ask_filled_events);
        process_ask_cancelled_events(&mut self.store, ask_cancelled_events);
        process_collection_bid_placed_events(&mut self.store, collection_bid_placed_events);
        process_collection_bid_filled_events(&mut self.store, collection_bid_filled_events);
        process_collection_bid_cancelled_events(&mut self.store, collection_bid_cancelled_events);
    }
}

} // verus!
