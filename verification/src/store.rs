//! The order-state store and its conditional upserts.
//!
//! Each table holds one row per key. An incoming row is inserted whole
//! when its key is new; on a key conflict only the phase field group it
//! carries is taken over, and only when its coordinate is strictly newer
//! than the stored one. The order status never falls back from a
//! terminal state to open. Everything a method does is stated against
//! the spec-level upserts of `projection`, over the row models.

use vstd::prelude::*;

use crate::models::{
    coord_lt, Activity, ActivityModel, CollectionBid, CollectionBidModel, FilledCollectionBid,
    FilledCollectionBidModel, NftAsk, NftAskModel, NftBid, NftBidModel,
};
use crate::projection::upsert_row;
use crate::projection::{lemma_upsert_match_at, lemma_upsert_no_match};
use crate::text::str_eq;

verus! {

/// How a phase update moves the order status: the incoming status is
/// taken, unless it would pull a terminal order (filled or cancelled)
/// back to open.
pub open spec fn spec_status_step(cur: i32, new: i32) -> i32 {
    if (cur == 2 || cur == 3) && new == 1 {
        cur
    } else {
        new
    }
}

fn status_step(cur: i32, new: i32) -> (r: i32)
    ensures
        r == spec_status_step(cur, new),
{
    if (cur == 2 || cur == 3) && new == 1 {
        cur
    } else {
        new
    }
}

fn coord_lt_exec(a: (i64, i64), b: (i64, i64)) -> (r: bool)
    ensures
        r == coord_lt(a, b),
{
    a.0 < b.0 || (a.0 == b.0 && a.1 < b.1)
}

/// The ask table's key.
pub open spec fn ask_key() -> spec_fn(NftAskModel) -> Seq<char> {
    |r: NftAskModel| r.ask_obj_addr
}

/// The placed-phase coordinate of an ask.
pub open spec fn ask_placed_coord() -> spec_fn(NftAskModel) -> (i64, i64) {
    |r: NftAskModel| r.placed_coord()
}

/// The filled-phase coordinate of an ask.
pub open spec fn ask_filled_coord() -> spec_fn(NftAskModel) -> (i64, i64) {
    |r: NftAskModel| r.filled_coord()
}

/// The cancelled-phase coordinate of an ask.
pub open spec fn ask_cancelled_coord() -> spec_fn(NftAskModel) -> (i64, i64) {
    |r: NftAskModel| r.cancelled_coord()
}

/// Merge of a placed ask event into a stored ask: seller, price, the
/// placed triplet and the status, gated by the placed coordinate.
pub open spec fn spec_merge_ask_placed(cur: NftAskModel, new: NftAskModel) -> NftAskModel {
    if coord_lt(cur.placed_coord(), new.placed_coord()) {
        NftAskModel {
            seller_addr: new.seller_addr,
            price: new.price,
            order_placed_timestamp: new.order_placed_timestamp,
            order_placed_tx_version: new.order_placed_tx_version,
            order_placed_event_idx: new.order_placed_event_idx,
            order_status: spec_status_step(cur.order_status, new.order_status),
            ..cur
        }
    } else {
        cur
    }
}

/// Merge of a filled ask event: buyer, royalties, commission, price, the
/// filled triplet and the status, gated by the filled coordinate.
pub open spec fn spec_merge_ask_filled(cur: NftAskModel, new: NftAskModel) -> NftAskModel {
    if coord_lt(cur.filled_coord(), new.filled_coord()) {
        NftAskModel {
            buyer_addr: new.buyer_addr,
            royalties: new.royalties,
            commission: new.commission,
            price: new.price,
            order_filled_timestamp: new.order_filled_timestamp,
            order_filled_tx_version: new.order_filled_tx_version,
            order_filled_event_idx: new.order_filled_event_idx,
            order_status: spec_status_step(cur.order_status, new.order_status),
            ..cur
        }
    } else {
        cur
    }
}

/// Merge of a cancelled ask event: price, the cancelled triplet and the
/// status, gated by the cancelled coordinate.
pub open spec fn spec_merge_ask_cancelled(cur: NftAskModel, new: NftAskModel) -> NftAskModel {
    if coord_lt(cur.cancelled_coord(), new.cancelled_coord()) {
        NftAskModel {
            price: new.price,
            order_cancelled_timestamp: new.order_cancelled_timestamp,
            order_cancelled_tx_version: new.order_cancelled_tx_version,
            order_cancelled_event_idx: new.order_cancelled_event_idx,
            order_status: spec_status_step(cur.order_status, new.order_status),
            ..cur
        }
    } else {
        cur
    }
}

/// The placed merge as a value, for the spec-level upserts.
pub open spec fn ask_placed_merge() -> spec_fn(NftAskModel, NftAskModel) -> NftAskModel {
    |cur: NftAskModel, new: NftAskModel| spec_merge_ask_placed(cur, new)
}

/// The filled merge as a value.
pub open spec fn ask_filled_merge() -> spec_fn(NftAskModel, NftAskModel) -> NftAskModel {
    |cur: NftAskModel, new: NftAskModel| spec_merge_ask_filled(cur, new)
}

/// The cancelled merge as a value.
pub open spec fn ask_cancelled_merge() -> spec_fn(NftAskModel, NftAskModel) -> NftAskModel {
    |cur: NftAskModel, new: NftAskModel| spec_merge_ask_cancelled(cur, new)
}

fn clone_ask(cur: &NftAsk) -> (r: NftAsk)
    ensures
        r@ == cur@,
{
    NftAsk {
        ask_obj_addr: cur.ask_obj_addr.clone(),
        nft_id: cur.nft_id.clone(),
        nft_name: cur.nft_name.clone(),
        collection_addr: cur.collection_addr.clone(),
        collection_creator_addr: cur.collection_creator_addr.clone(),
        collection_name: cur.collection_name.clone(),
        nft_standard: cur.nft_standard,
        marketplace_addr: cur.marketplace_addr.clone(),
        buyer_addr: cur.buyer_addr.clone(),
        seller_addr: cur.seller_addr.clone(),
        price: cur.price,
        royalties: cur.royalties,
        commission: cur.commission,
        payment_token: cur.payment_token.clone(),
        payment_token_type: cur.payment_token_type,
        order_placed_timestamp: cur.order_placed_timestamp,
        order_placed_tx_version: cur.order_placed_tx_version,
        order_placed_event_idx: cur.order_placed_event_idx,
        order_filled_timestamp: cur.order_filled_timestamp,
        order_filled_tx_version: cur.order_filled_tx_version,
        order_filled_event_idx: cur.order_filled_event_idx,
        order_cancelled_timestamp: cur.order_cancelled_timestamp,
        order_cancelled_tx_version: cur.order_cancelled_tx_version,
        order_cancelled_event_idx: cur.order_cancelled_event_idx,
        order_status: cur.order_status,
        order_type: cur.order_type,
    }
}

fn merge_ask_placed_row(cur: &NftAsk, new: NftAsk) -> (r: NftAsk)
    ensures
        r@ == spec_merge_ask_placed(cur@, new@),
{
    if coord_lt_exec(
        (cur.order_placed_tx_version, cur.order_placed_event_idx),
        (new.order_placed_tx_version, new.order_placed_event_idx),
    ) {
        NftAsk {
            seller_addr: new.seller_addr,
            price: new.price,
            order_placed_timestamp: new.order_placed_timestamp,
            order_placed_tx_version: new.order_placed_tx_version,
            order_placed_event_idx: new.order_placed_event_idx,
            order_status: status_step(cur.order_status, new.order_status),
            ..clone_ask(cur)
        }
    } else {
        clone_ask(cur)
    }
}

fn merge_ask_filled_row(cur: &NftAsk, new: NftAsk) -> (r: NftAsk)
    ensures
        r@ == spec_merge_ask_filled(cur@, new@),
{
    if coord_lt_exec(
        (cur.order_filled_tx_version, cur.order_filled_event_idx),
        (new.order_filled_tx_version, new.order_filled_event_idx),
    ) {
        NftAsk {
            buyer_addr: new.buyer_addr,
            royalties: new.royalties,
            commission: new.commission,
            price: new.price,
            order_filled_timestamp: new.order_filled_timestamp,
            order_filled_tx_version: new.order_filled_tx_version,
            order_filled_event_idx: new.order_filled_event_idx,
            order_status: status_step(cur.order_status, new.order_status),
            ..clone_ask(cur)
        }
    } else {
        clone_ask(cur)
    }
}

fn merge_ask_cancelled_row(cur: &NftAsk, new: NftAsk) -> (r: NftAsk)
    ensures
        r@ == spec_merge_ask_cancelled(cur@, new@),
{
    if coord_lt_exec(
        (cur.order_cancelled_tx_version, cur.order_cancelled_event_idx),
        (new.order_cancelled_tx_version, new.order_cancelled_event_idx),
    ) {
        NftAsk {
            price: new.price,
            order_cancelled_timestamp: new.order_cancelled_timestamp,
            order_cancelled_tx_version: new.order_cancelled_tx_version,
            order_cancelled_event_idx: new.order_cancelled_event_idx,
            order_status: status_step(cur.order_status, new.order_status),
            ..clone_ask(cur)
        }
    } else {
        clone_ask(cur)
    }
}

fn find_ask(rows: &Vec<NftAsk>, key: &String) -> (r: Option<usize>)
    ensures
        r matches Some(i) ==> i < rows@.len() && rows@[i as int]@.ask_obj_addr == key@ && (forall|
            j: int,
        | 0 <= j < i ==> rows@[j]@.ask_obj_addr != key@),
        r is None ==> forall|j: int| 0 <= j < rows@.len() ==> rows@[j]@.ask_obj_addr != key@,
{
    let mut i: usize = 0;
    while i < rows.len()
        invariant
            i <= rows@.len(),
            forall|j: int| 0 <= j < i ==> rows@[j]@.ask_obj_addr != key@,
        decreases rows@.len() - i,
    {
        if str_eq(rows[i].ask_obj_addr.as_str(), key.as_str()) {
            return Some(i);
        }
        i = i + 1;
    }
    None
}

/// The bid table's key.
pub open spec fn bid_key() -> spec_fn(NftBidModel) -> Seq<char> {
    |r: NftBidModel| r.bid_obj_addr
}

/// The placed-phase coordinate of a bid.
pub open spec fn bid_placed_coord() -> spec_fn(NftBidModel) -> (i64, i64) {
    |r: NftBidModel| r.placed_coord()
}

/// The filled-phase coordinate of a bid.
pub open spec fn bid_filled_coord() -> spec_fn(NftBidModel) -> (i64, i64) {
    |r: NftBidModel| r.filled_coord()
}

/// The cancelled-phase coordinate of a bid.
pub open spec fn bid_cancelled_coord() -> spec_fn(NftBidModel) -> (i64, i64) {
    |r: NftBidModel| r.cancelled_coord()
}

/// Merge of a placed bid event: buyer, price, the placed triplet and the
/// status, gated by the placed coordinate.
pub open spec fn spec_merge_bid_placed(cur: NftBidModel, new: NftBidModel) -> NftBidModel {
    if coord_lt(cur.placed_coord(), new.placed_coord()) {
        NftBidModel {
            buyer_addr: new.buyer_addr,
            price: new.price,
            order_placed_timestamp: new.order_placed_timestamp,
            order_placed_tx_version: new.order_placed_tx_version,
            order_placed_event_idx: new.order_placed_event_idx,
            order_status: spec_status_step(cur.order_status, new.order_status),
            ..cur
        }
    } else {
        cur
    }
}

/// Merge of a filled bid event: seller, royalties, commission, price,
/// the filled triplet and the status, gated by the filled coordinate.
pub open spec fn spec_merge_bid_filled(cur: NftBidModel, new: NftBidModel) -> NftBidModel {
    if coord_lt(cur.filled_coord(), new.filled_coord()) {
        NftBidModel {
            seller_addr: new.seller_addr,
            royalties: new.royalties,
            commission: new.commission,
            price: new.price,
            order_filled_timestamp: new.order_filled_timestamp,
            order_filled_tx_version: new.order_filled_tx_version,
            order_filled_event_idx: new.order_filled_event_idx,
            order_status: spec_status_step(cur.order_status, new.order_status),
            ..cur
        }
    } else {
        cur
    }
}

/// Merge of a cancelled bid event: price, the cancelled triplet and the
/// status, gated by the cancelled coordinate.
pub open spec fn spec_merge_bid_cancelled(cur: NftBidModel, new: NftBidModel) -> NftBidModel {
    if coord_lt(cur.cancelled_coord(), new.cancelled_coord()) {
        NftBidModel {
            price: new.price,
            order_cancelled_timestamp: new.order_cancelled_timestamp,
            order_cancelled_tx_version: new.order_cancelled_tx_version,
            order_cancelled_event_idx: new.order_cancelled_event_idx,
            order_status: spec_status_step(cur.order_status, new.order_status),
            ..cur
        }
    } else {
        cur
    }
}

/// The placed merge as a value.
pub open spec fn bid_placed_merge() -> spec_fn(NftBidModel, NftBidModel) -> NftBidModel {
    |cur: NftBidModel, new: NftBidModel| spec_merge_bid_placed(cur, new)
}

/// The filled merge as a value.
pub open spec fn bid_filled_merge() -> spec_fn(NftBidModel, NftBidModel) -> NftBidModel {
    |cur: NftBidModel, new: NftBidModel| spec_merge_bid_filled(cur, new)
}

/// The cancelled merge as a value.
pub open spec fn bid_cancelled_merge() -> spec_fn(NftBidModel, NftBidModel) -> NftBidModel {
    |cur: NftBidModel, new: NftBidModel| spec_merge_bid_cancelled(cur, new)
}

fn clone_bid(cur: &NftBid) -> (r: NftBid)
    ensures
        r@ == cur@,
{
    NftBid {
        bid_obj_addr: cur.bid_obj_addr.clone(),
        nft_id: cur.nft_id.clone(),
        nft_name: cur.nft_name.clone(),
        collection_addr: cur.collection_addr.clone(),
        collection_creator_addr: cur.collection_creator_addr.clone(),
        collection_name: cur.collection_name.clone(),
        nft_standard: cur.nft_standard,
        marketplace_addr: cur.marketplace_addr.clone(),
        buyer_addr: cur.buyer_addr.clone(),
        seller_addr: cur.seller_addr.clone(),
        price: cur.price,
        royalties: cur.royalties,
        commission: cur.commission,
        payment_token: cur.payment_token.clone(),
        payment_token_type: cur.payment_token_type,
        order_placed_timestamp: cur.order_placed_timestamp,
        order_placed_tx_version: cur.order_placed_tx_version,
        order_placed_event_idx: cur.order_placed_event_idx,
        order_filled_timestamp: cur.order_filled_timestamp,
        order_filled_tx_version: cur.order_filled_tx_version,
        order_filled_event_idx: cur.order_filled_event_idx,
        order_cancelled_timestamp: cur.order_cancelled_timestamp,
        order_cancelled_tx_version: cur.order_cancelled_tx_version,
        order_cancelled_event_idx: cur.order_cancelled_event_idx,
        order_status: cur.order_status,
        order_expiration_timestamp: cur.order_expiration_timestamp,
    }
}

fn merge_bid_placed_row(cur: &NftBid, new: NftBid) -> (r: NftBid)
    ensures
        r@ == spec_merge_bid_placed(cur@, new@),
{
    if coord_lt_exec(
        (cur.order_placed_tx_version, cur.order_placed_event_idx),
        (new.order_placed_tx_version, new.order_placed_event_idx),
    ) {
        NftBid {
            buyer_addr: new.buyer_addr,
            price: new.price,
            order_placed_timestamp: new.order_placed_timestamp,
            order_placed_tx_version: new.order_placed_tx_version,
            order_placed_event_idx: new.order_placed_event_idx,
            order_status: status_step(cur.order_status, new.order_status),
            ..clone_bid(cur)
        }
    } else {
        clone_bid(cur)
    }
}

fn merge_bid_filled_row(cur: &NftBid, new: NftBid) -> (r: NftBid)
    ensures
        r@ == spec_merge_bid_filled(cur@, new@),
{
    if coord_lt_exec(
        (cur.order_filled_tx_version, cur.order_filled_event_idx),
        (new.order_filled_tx_version, new.order_filled_event_idx),
    ) {
        NftBid {
            seller_addr: new.seller_addr,
            royalties: new.royalties,
            commission: new.commission,
            price: new.price,
            order_filled_timestamp: new.order_filled_timestamp,
            order_filled_tx_version: new.order_filled_tx_version,
            order_filled_event_idx: new.order_filled_event_idx,
            order_status: status_step(cur.order_status, new.order_status),
            ..clone_bid(cur)
        }
    } else {
        clone_bid(cur)
    }
}

fn merge_bid_cancelled_row(cur: &NftBid, new: NftBid) -> (r: NftBid)
    ensures
        r@ == spec_merge_bid_cancelled(cur@, new@),
{
    if coord_lt_exec(
        (cur.order_cancelled_tx_version, cur.order_cancelled_event_idx),
        (new.order_cancelled_tx_version, new.order_cancelled_event_idx),
    ) {
        NftBid {
            price: new.price,
            order_cancelled_timestamp: new.order_cancelled_timestamp,
            order_cancelled_tx_version: new.order_cancelled_tx_version,
            order_cancelled_event_idx: new.order_cancelled_event_idx,
            order_status: status_step(cur.order_status, new.order_status),
            ..clone_bid(cur)
        }
    } else {
        clone_bid(cur)
    }
}

fn find_bid(rows: &Vec<NftBid>, key: &String) -> (r: Option<usize>)
    ensures
        r matches Some(i) ==> i < rows@.len() && rows@[i as int]@.bid_obj_addr == key@ && (forall|
            j: int,
        | 0 <= j < i ==> rows@[j]@.bid_obj_addr != key@),
        r is None ==> forall|j: int| 0 <= j < rows@.len() ==> rows@[j]@.bid_obj_addr != key@,
{
    let mut i: usize = 0;
    while i < rows.len()
        invariant
            i <= rows@.len(),
            forall|j: int| 0 <= j < i ==> rows@[j]@.bid_obj_addr != key@,
        decreases rows@.len() - i,
    {
        if str_eq(rows[i].bid_obj_addr.as_str(), key.as_str()) {
            return Some(i);
        }
        i = i + 1;
    }
    None
}

/// The collection-bid table's key.
pub open spec fn collection_bid_key() -> spec_fn(CollectionBidModel) -> Seq<char> {
    |r: CollectionBidModel| r.bid_obj_addr
}

/// The placed-phase coordinate of a collection bid.
pub open spec fn collection_bid_placed_coord() -> spec_fn(CollectionBidModel) -> (i64, i64) {
    |r: CollectionBidModel| r.placed_coord()
}

/// The latest-fill coordinate of a collection bid.
pub open spec fn collection_bid_latest_filled_coord() -> spec_fn(CollectionBidModel) -> (
    i64,
    i64,
) {
    |r: CollectionBidModel| r.latest_filled_coord()
}

/// The cancelled-phase coordinate of a collection bid.
pub open spec fn collection_bid_cancelled_coord() -> spec_fn(CollectionBidModel) -> (i64, i64) {
    |r: CollectionBidModel| r.cancelled_coord()
}

/// Merge of a placed collection-bid event: price, buyer, total amount,
/// the placed triplet and the status, gated by the placed coordinate.
pub open spec fn spec_merge_collection_bid_placed(
    cur: CollectionBidModel,
    new: CollectionBidModel,
) -> CollectionBidModel {
    if coord_lt(cur.placed_coord(), new.placed_coord()) {
        CollectionBidModel {
            price: new.price,
            buyer_addr: new.buyer_addr,
            total_nft_amount: new.total_nft_amount,
            order_placed_timestamp: new.order_placed_timestamp,
            order_placed_tx_version: new.order_placed_tx_version,
            order_placed_event_idx: new.order_placed_event_idx,
            order_status: spec_status_step(cur.order_status, new.order_status),
            ..cur
        }
    } else {
        cur
    }
}

/// Merge of a collection-bid fill: only the latest-fill triplet
/// advances, gated by the latest-fill coordinate; a fill does not end
/// the bid, so the status is untouched.
pub open spec fn spec_merge_collection_bid_filled(
    cur: CollectionBidModel,
    new: CollectionBidModel,
) -> CollectionBidModel {
    if coord_lt(cur.latest_filled_coord(), new.latest_filled_coord()) {
        CollectionBidModel {
            latest_order_filled_timestamp: new.latest_order_filled_timestamp,
            latest_order_filled_tx_version: new.latest_order_filled_tx_version,
            latest_order_filled_event_idx: new.latest_order_filled_event_idx,
            ..cur
        }
    } else {
        cur
    }
}

/// Merge of a cancelled collection-bid event: price, the cancelled
/// triplet and the status, gated by the cancelled coordinate.
pub open spec fn spec_merge_collection_bid_cancelled(
    cur: CollectionBidModel,
    new: CollectionBidModel,
) -> CollectionBidModel {
    if coord_lt(cur.cancelled_coord(), new.cancelled_coord()) {
        CollectionBidModel {
            price: new.price,
            order_cancelled_timestamp: new.order_cancelled_timestamp,
            order_cancelled_tx_version: new.order_cancelled_tx_version,
            order_cancelled_event_idx: new.order_cancelled_event_idx,
            order_status: spec_status_step(cur.order_status, new.order_status),
            ..cur
        }
    } else {
        cur
    }
}

/// The placed merge as a value.
pub open spec fn collection_bid_placed_merge() -> spec_fn(
    CollectionBidModel,
    CollectionBidModel,
) -> CollectionBidModel {
    |cur: CollectionBidModel, new: CollectionBidModel| spec_merge_collection_bid_placed(cur, new)
}

/// The latest-fill merge as a value.
pub open spec fn collection_bid_filled_merge() -> spec_fn(
    CollectionBidModel,
    CollectionBidModel,
) -> CollectionBidModel {
    |cur: CollectionBidModel, new: CollectionBidModel| spec_merge_collection_bid_filled(cur, new)
}

/// The cancelled merge as a value.
pub open spec fn collection_bid_cancelled_merge() -> spec_fn(
    CollectionBidModel,
    CollectionBidModel,
) -> CollectionBidModel {
    |cur: CollectionBidModel, new: CollectionBidModel|
        spec_merge_collection_bid_cancelled(cur, new)
}

fn clone_collection_bid(cur: &CollectionBid) -> (r: CollectionBid)
    ensures
        r@ == cur@,
{
    CollectionBid {
        bid_obj_addr: cur.bid_obj_addr.clone(),
        collection_addr: cur.collection_addr.clone(),
        collection_creator_addr: cur.collection_creator_addr.clone(),
        collection_name: cur.collection_name.clone(),
        nft_standard: cur.nft_standard,
        marketplace_addr: cur.marketplace_addr.clone(),
        buyer_addr: cur.buyer_addr.clone(),
        total_nft_amount: cur.total_nft_amount,
        price: cur.price,
        payment_token: cur.payment_token.clone(),
        payment_token_type: cur.payment_token_type,
        order_placed_timestamp: cur.order_placed_timestamp,
        order_placed_tx_version: cur.order_placed_tx_version,
        order_placed_event_idx: cur.order_placed_event_idx,
        latest_order_filled_timestamp: cur.latest_order_filled_timestamp,
        latest_order_filled_tx_version: cur.latest_order_filled_tx_version,
        latest_order_filled_event_idx: cur.latest_order_filled_event_idx,
        order_cancelled_timestamp: cur.order_cancelled_timestamp,
        order_cancelled_tx_version: cur.order_cancelled_tx_version,
        order_cancelled_event_idx: cur.order_cancelled_event_idx,
        order_status: cur.order_status,
        order_expiration_timestamp: cur.order_expiration_timestamp,
    }
}

fn merge_collection_bid_placed_row(cur: &CollectionBid, new: CollectionBid) -> (r: CollectionBid)
    ensures
        r@ == spec_merge_collection_bid_placed(cur@, new@),
{
    if coord_lt_exec(
        (cur.order_placed_tx_version, cur.order_placed_event_idx),
        (new.order_placed_tx_version, new.order_placed_event_idx),
    ) {
        CollectionBid {
            price: new.price,
            buyer_addr: new.buyer_addr,
            total_nft_amount: new.total_nft_amount,
            order_placed_timestamp: new.order_placed_timestamp,
            order_placed_tx_version: new.order_placed_tx_version,
            order_placed_event_idx: new.order_placed_event_idx,
            order_status: status_step(cur.order_status, new.order_status),
            ..clone_collection_bid(cur)
        }
    } else {
        clone_collection_bid(cur)
    }
}

fn merge_collection_bid_filled_row(cur: &CollectionBid, new: CollectionBid) -> (r: CollectionBid)
    ensures
        r@ == spec_merge_collection_bid_filled(cur@, new@),
{
    if coord_lt_exec(
        (cur.latest_order_filled_tx_version, cur.latest_order_filled_event_idx),
        (new.latest_order_filled_tx_version, new.latest_order_filled_event_idx),
    ) {
        CollectionBid {
            latest_order_filled_timestamp: new.latest_order_filled_timestamp,
            latest_order_filled_tx_version: new.latest_order_filled_tx_version,
            latest_order_filled_event_idx: new.latest_order_filled_event_idx,
            ..clone_collection_bid(cur)
        }
    } else {
        clone_collection_bid(cur)
    }
}

fn merge_collection_bid_cancelled_row(cur: &CollectionBid, new: CollectionBid) -> (r:
    CollectionBid)
    ensures
        r@ == spec_merge_collection_bid_cancelled(cur@, new@),
{
    if coord_lt_exec(
        (cur.order_cancelled_tx_version, cur.order_cancelled_event_idx),
        (new.order_cancelled_tx_version, new.order_cancelled_event_idx),
    ) {
        CollectionBid {
            price: new.price,
            order_cancelled_timestamp: new.order_cancelled_timestamp,
            order_cancelled_tx_version: new.order_cancelled_tx_version,
            order_cancelled_event_idx: new.order_cancelled_event_idx,
            order_status: status_step(cur.order_status, new.order_status),
            ..clone_collection_bid(cur)
        }
    } else {
        clone_collection_bid(cur)
    }
}

fn find_collection_bid(rows: &Vec<CollectionBid>, key: &String) -> (r: Option<usize>)
    ensures
        r matches Some(i) ==> i < rows@.len() && rows@[i as int]@.bid_obj_addr == key@ && (forall|
            j: int,
        | 0 <= j < i ==> rows@[j]@.bid_obj_addr != key@),
        r is None ==> forall|j: int| 0 <= j < rows@.len() ==> rows@[j]@.bid_obj_addr != key@,
{
    let mut i: usize = 0;
    while i < rows.len()
        invariant
            i <= rows@.len(),
            forall|j: int| 0 <= j < i ==> rows@[j]@.bid_obj_addr != key@,
        decreases rows@.len() - i,
    {
        if str_eq(rows[i].bid_obj_addr.as_str(), key.as_str()) {
            return Some(i);
        }
        i = i + 1;
    }
    None
}

/// The fill table's key: parent bid and NFT identity.
pub open spec fn filled_collection_bid_key() -> spec_fn(FilledCollectionBidModel) -> (
    Seq<char>,
    Seq<char>,
    Seq<char>,
) {
    |r: FilledCollectionBidModel| r.key()
}

/// The filled-phase coordinate of a fill row.
pub open spec fn filled_collection_bid_coord() -> spec_fn(FilledCollectionBidModel) -> (
    i64,
    i64,
) {
    |r: FilledCollectionBidModel| r.filled_coord()
}

/// Merge of a fill row: every non-key field is replaced, gated by the
/// filled coordinate.
pub open spec fn spec_merge_filled_collection_bid(
    cur: FilledCollectionBidModel,
    new: FilledCollectionBidModel,
) -> FilledCollectionBidModel {
    if coord_lt(cur.filled_coord(), new.filled_coord()) {
        FilledCollectionBidModel {
            seller_addr: new.seller_addr,
            royalties: new.royalties,
            commission: new.commission,
            price: new.price,
            order_filled_timestamp: new.order_filled_timestamp,
            order_filled_tx_version: new.order_filled_tx_version,
            order_filled_event_idx: new.order_filled_event_idx,
            ..cur
        }
    } else {
        cur
    }
}

/// The fill merge as a value.
pub open spec fn filled_collection_bid_merge() -> spec_fn(
    FilledCollectionBidModel,
    FilledCollectionBidModel,
) -> FilledCollectionBidModel {
    |cur: FilledCollectionBidModel, new: FilledCollectionBidModel|
        spec_merge_filled_collection_bid(cur, new)
}

fn clone_filled_collection_bid(cur: &FilledCollectionBid) -> (r: FilledCollectionBid)
    ensures
        r@ == cur@,
{
    FilledCollectionBid {
        bid_obj_addr: cur.bid_obj_addr.clone(),
        nft_id: cur.nft_id.clone(),
        nft_name: cur.nft_name.clone(),
        seller_addr: cur.seller_addr.clone(),
        price: cur.price,
        royalties: cur.royalties,
        commission: cur.commission,
        order_filled_timestamp: cur.order_filled_timestamp,
        order_filled_tx_version: cur.order_filled_tx_version,
        order_filled_event_idx: cur.order_filled_event_idx,
    }
}

fn merge_filled_collection_bid_row(cur: &FilledCollectionBid, new: FilledCollectionBid) -> (r:
    FilledCollectionBid)
    ensures
        r@ == spec_merge_filled_collection_bid(cur@, new@),
{
    if coord_lt_exec(
        (cur.order_filled_tx_version, cur.order_filled_event_idx),
        (new.order_filled_tx_version, new.order_filled_event_idx),
    ) {
        FilledCollectionBid {
            seller_addr: new.seller_addr,
            royalties: new.royalties,
            commission: new.commission,
            price: new.price,
            order_filled_timestamp: new.order_filled_timestamp,
            order_filled_tx_version: new.order_filled_tx_version,
            order_filled_event_idx: new.order_filled_event_idx,
            ..clone_filled_collection_bid(cur)
        }
    } else {
        clone_filled_collection_bid(cur)
    }
}

fn find_filled_collection_bid(rows: &Vec<FilledCollectionBid>, row: &FilledCollectionBid) -> (r:
    Option<usize>)
    ensures
        r matches Some(i) ==> i < rows@.len() && rows@[i as int]@.key() == row@.key() && (forall|
            j: int,
        | 0 <= j < i ==> rows@[j]@.key() != row@.key()),
        r is None ==> forall|j: int| 0 <= j < rows@.len() ==> rows@[j]@.key() != row@.key(),
{
    let mut i: usize = 0;
    while i < rows.len()
        invariant
            i <= rows@.len(),
            forall|j: int| 0 <= j < i ==> rows@[j]@.key() != row@.key(),
        decreases rows@.len() - i,
    {
        if str_eq(rows[i].bid_obj_addr.as_str(), row.bid_obj_addr.as_str()) && str_eq(
            rows[i].nft_id.as_str(),
            row.nft_id.as_str(),
        ) && str_eq(rows[i].nft_name.as_str(), row.nft_name.as_str()) {
            return Some(i);
        }
        i = i + 1;
    }
    None
}

/// The activity table's key: the event coordinate.
pub open spec fn activity_key() -> spec_fn(ActivityModel) -> (i64, i64) {
    |r: ActivityModel| r.coord()
}

/// Activity rows are immutable: a conflicting insert is ignored.
pub open spec fn activity_merge() -> spec_fn(ActivityModel, ActivityModel) -> ActivityModel {
    |cur: ActivityModel, new: ActivityModel| cur
}

fn find_activity(rows: &Vec<Activity>, tx_version: i64, event_idx: i64) -> (r: Option<usize>)
    ensures
        r matches Some(i) ==> i < rows@.len() && rows@[i as int]@.coord() == (
        tx_version,
        event_idx,
        ) && (forall|j: int| 0 <= j < i ==> rows@[j]@.coord() != (tx_version, event_idx)),
        r is None ==> forall|j: int|
            0 <= j < rows@.len() ==> rows@[j]@.coord() != (tx_version, event_idx),
{
    let mut i: usize = 0;
    while i < rows.len()
        invariant
            i <= rows@.len(),
            forall|j: int| 0 <= j < i ==> rows@[j]@.coord() != (tx_version, event_idx),
        decreases rows@.len() - i,
    {
        if rows[i].activity_tx_version == tx_version && rows[i].activity_event_idx == event_idx {
            return Some(i);
        }
        i = i + 1;
    }
    None
}

/// The marketplace store: one vector per table, keyed rows.
pub struct MarketplaceStore {
    pub nft_asks: Vec<NftAsk>,
    pub nft_bids: Vec<NftBid>,
    pub collection_bids: Vec<CollectionBid>,
    pub filled_collection_bids: Vec<FilledCollectionBid>,
    pub activities: Vec<Activity>,
}

impl MarketplaceStore {
    /// An empty store.
    pub fn new() -> (r: MarketplaceStore)
        ensures
            r.nft_asks@.len() == 0,
            r.nft_bids@.len() == 0,
            r.collection_bids@.len() == 0,
            r.filled_collection_bids@.len() == 0,
            r.activities@.len() == 0,
    {
        MarketplaceStore {
            nft_asks: Vec::new(),
            nft_bids: Vec::new(),
            collection_bids: Vec::new(),
            filled_collection_bids: Vec::new(),
            activities: Vec::new(),
        }
    }

    /// Upserts one placed ask row under the placed-phase predicate.
    pub fn apply_ask_placed(&mut self, row: NftAsk)
        ensures
            final(self).nft_asks.deep_view() == upsert_row(
                old(self).nft_asks.deep_view(),
                row@,
                ask_key(),
                ask_placed_merge(),
            ),
            final(self).nft_bids == old(self).nft_bids,
            final(self).collection_bids == old(self).collection_bids,
            final(self).filled_collection_bids == old(self).filled_collection_bids,
            final(self).activities == old(self).activities,
    {
        let ghost models = self.nft_asks.deep_view();
        match find_ask(&self.nft_asks, &row.ask_obj_addr) {
            Some(i) => {
                proof {
                    assert(forall|j: int|
                        0 <= j < models.len() ==> #[trigger] models[j] == old(
                            self,
                        ).nft_asks@[j]@);
                    lemma_upsert_match_at(models, row@, ask_key(), ask_placed_merge(), i as int);
                }
                let merged = merge_ask_placed_row(&self.nft_asks[i], row);
                self.nft_asks[i] = merged;
                proof {
                    assert(self.nft_asks.deep_view() =~= models.update(
                        i as int,
                        spec_merge_ask_placed(models[i as int], row@),
                    ));
                }
            },
            None => {
                proof {
                    assert(forall|j: int|
                        0 <= j < models.len() ==> #[trigger] models[j] == old(
                            self,
                        ).nft_asks@[j]@);
                    lemma_upsert_no_match(models, row@, ask_key(), ask_placed_merge());
                }
                self.nft_asks.push(row);
                proof {
                    assert(self.nft_asks.deep_view() =~= models.push(self.nft_asks@.last()@));
                }
            },
        }
    }

    /// Upserts one filled ask row under the filled-phase predicate.
    pub fn apply_ask_filled(&mut self, row: NftAsk)
        ensures
            final(self).nft_asks.deep_view() == upsert_row(
                old(self).nft_asks.deep_view(),
                row@,
                ask_key(),
                ask_filled_merge(),
            ),
            final(self).nft_bids == old(self).nft_bids,
            final(self).collection_bids == old(self).collection_bids,
            final(self).filled_collection_bids == old(self).filled_collection_bids,
            final(self).activities == old(self).activities,
    {
        let ghost models = self.nft_asks.deep_view();
        match find_ask(&self.nft_asks, &row.ask_obj_addr) {
            Some(i) => {
                proof {
                    assert(forall|j: int|
                        0 <= j < models.len() ==> #[trigger] models[j] == old(
                            self,
                        ).nft_asks@[j]@);
                    lemma_upsert_match_at(models, row@, ask_key(), ask_filled_merge(), i as int);
                }
                let merged = merge_ask_filled_row(&self.nft_asks[i], row);
                self.nft_asks[i] = merged;
                proof {
                    assert(self.nft_asks.deep_view() =~= models.update(
                        i as int,
                        spec_merge_ask_filled(models[i as int], row@),
                    ));
                }
            },
            None => {
                proof {
                    assert(forall|j: int|
                        0 <= j < models.len() ==> #[trigger] models[j] == old(
                            self,
                        ).nft_asks@[j]@);
                    lemma_upsert_no_match(models, row@, ask_key(), ask_filled_merge());
                }
                self.nft_asks.push(row);
                proof {
                    assert(self.nft_asks.deep_view() =~= models.push(self.nft_asks@.last()@));
                }
            },
        }
    }

    /// Upserts one cancelled ask row under the cancelled-phase predicate.
    pub fn apply_ask_cancelled(&mut self, row: NftAsk)
        ensures
            final(self).nft_asks.deep_view() == upsert_row(
                old(self).nft_asks.deep_view(),
                row@,
                ask_key(),
                ask_cancelled_merge(),
            ),
            final(self).nft_bids == old(self).nft_bids,
            final(self).collection_bids == old(self).collection_bids,
            final(self).filled_collection_bids == old(self).filled_collection_bids,
            final(self).activities == old(self).activities,
    {
        let ghost models = self.nft_asks.deep_view();
        match find_ask(&self.nft_asks, &row.ask_obj_addr) {
            Some(i) => {
                proof {
                    assert(forall|j: int|
                        0 <= j < models.len() ==> #[trigger] models[j] == old(
                            self,
                        ).nft_asks@[j]@);
                    lemma_upsert_match_at(models, row@, ask_key(), ask_cancelled_merge(), i as int);
                }
                let merged = merge_ask_cancelled_row(&self.nft_asks[i], row);
                self.nft_asks[i] = merged;
                proof {
                    assert(self.nft_asks.deep_view() =~= models.update(
                        i as int,
                        spec_merge_ask_cancelled(models[i as int], row@),
                    ));
                }
            },
            None => {
                proof {
                    assert(forall|j: int|
                        0 <= j < models.len() ==> #[trigger] models[j] == old(
                            self,
                        ).nft_asks@[j]@);
                    lemma_upsert_no_match(models, row@, ask_key(), ask_cancelled_merge());
                }
                self.nft_asks.push(row);
                proof {
                    assert(self.nft_asks.deep_view() =~= models.push(self.nft_asks@.last()@));
                }
            },
        }
    }

    /// Upserts one placed bid row under the placed-phase predicate.
    pub fn apply_bid_placed(&mut self, row: NftBid)
        ensures
            final(self).nft_bids.deep_view() == upsert_row(
                old(self).nft_bids.deep_view(),
                row@,
                bid_key(),
                bid_placed_merge(),
            ),
            final(self).nft_asks == old(self).nft_asks,
            final(self).collection_bids == old(self).collection_bids,
            final(self).filled_collection_bids == old(self).filled_collection_bids,
            final(self).activities == old(self).activities,
    {
        let ghost models = self.nft_bids.deep_view();
        match find_bid(&self.nft_bids, &row.bid_obj_addr) {
            Some(i) => {
                proof {
                    assert(forall|j: int|
                        0 <= j < models.len() ==> #[trigger] models[j] == old(
                            self,
                        ).nft_bids@[j]@);
                    lemma_upsert_match_at(models, row@, bid_key(), bid_placed_merge(), i as int);
                }
                let merged = merge_bid_placed_row(&self.nft_bids[i], row);
                self.nft_bids[i] = merged;
                proof {
                    assert(self.nft_bids.deep_view() =~= models.update(
                        i as int,
                        spec_merge_bid_placed(models[i as int], row@),
                    ));
                }
            },
            None => {
                proof {
                    assert(forall|j: int|
                        0 <= j < models.len() ==> #[trigger] models[j] == old(
                            self,
                        ).nft_bids@[j]@);
                    lemma_upsert_no_match(models, row@, bid_key(), bid_placed_merge());
                }
                self.nft_bids.push(row);
                proof {
                    assert(self.nft_bids.deep_view() =~= models.push(self.nft_bids@.last()@));
                }
            },
        }
    }

    /// Upserts one filled bid row under the filled-phase predicate.
    pub fn apply_bid_filled(&mut self, row: NftBid)
        ensures
            final(self).nft_bids.deep_view() == upsert_row(
                old(self).nft_bids.deep_view(),
                row@,
                bid_key(),
                bid_filled_merge(),
            ),
            final(self).nft_asks == old(self).nft_asks,
            final(self).collection_bids == old(self).collection_bids,
            final(self).filled_collection_bids == old(self).filled_collection_bids,
            final(self).activities == old(self).activities,
    {
        let ghost models = self.nft_bids.deep_view();
        match find_bid(&self.nft_bids, &row.bid_obj_addr) {
            Some(i) => {
                proof {
                    assert(forall|j: int|
                        0 <= j < models.len() ==> #[trigger] models[j] == old(
                            self,
                        ).nft_bids@[j]@);
                    lemma_upsert_match_at(models, row@, bid_key(), bid_filled_merge(), i as int);
                }
                let merged = merge_bid_filled_row(&self.nft_bids[i], row);
                self.nft_bids[i] = merged;
                proof {
                    assert(self.nft_bids.deep_view() =~= models.update(
                        i as int,
                        spec_merge_bid_filled(models[i as int], row@),
                    ));
                }
            },
            None => {
                proof {
                    assert(forall|j: int|
                        0 <= j < models.len() ==> #[trigger] models[j] == old(
                            self,
                        ).nft_bids@[j]@);
                    lemma_upsert_no_match(models, row@, bid_key(), bid_filled_merge());
                }
                self.nft_bids.push(row);
                proof {
                    assert(self.nft_bids.deep_view() =~= models.push(self.nft_bids@.last()@));
                }
            },
        }
    }

    /// Upserts one cancelled bid row under the cancelled-phase predicate.
    pub fn apply_bid_cancelled(&mut self, row: NftBid)
        ensures
            final(self).nft_bids.deep_view() == upsert_row(
                old(self).nft_bids.deep_view(),
                row@,
                bid_key(),
                bid_cancelled_merge(),
            ),
            final(self).nft_asks == old(self).nft_asks,
            final(self).collection_bids == old(self).collection_bids,
            final(self).filled_collection_bids == old(self).filled_collection_bids,
            final(self).activities == old(self).activities,
    {
        let ghost models = self.nft_bids.deep_view();
        match find_bid(&self.nft_bids, &row.bid_obj_addr) {
            Some(i) => {
                proof {
                    assert(forall|j: int|
                        0 <= j < models.len() ==> #[trigger] models[j] == old(
                            self,
                        ).nft_bids@[j]@);
                    lemma_upsert_match_at(models, row@, bid_key(), bid_cancelled_merge(), i as int);
                }
                let merged = merge_bid_cancelled_row(&self.nft_bids[i], row);
                self.nft_bids[i] = merged;
                proof {
                    assert(self.nft_bids.deep_view() =~= models.update(
                        i as int,
                        spec_merge_bid_cancelled(models[i as int], row@),
                    ));
                }
            },
            None => {
                proof {
                    assert(forall|j: int|
                        0 <= j < models.len() ==> #[trigger] models[j] == old(
                            self,
                        ).nft_bids@[j]@);
                    lemma_upsert_no_match(models, row@, bid_key(), bid_cancelled_merge());
                }
                self.nft_bids.push(row);
                proof {
                    assert(self.nft_bids.deep_view() =~= models.push(self.nft_bids@.last()@));
                }
            },
        }
    }

    /// Upserts one placed collection-bid row under the placed-phase
    /// predicate.
    pub fn apply_collection_bid_placed(&mut self, row: CollectionBid)
        ensures
            final(self).collection_bids.deep_view() == upsert_row(
                old(self).collection_bids.deep_view(),
                row@,
                collection_bid_key(),
                collection_bid_placed_merge(),
            ),
            final(self).nft_asks == old(self).nft_asks,
            final(self).nft_bids == old(self).nft_bids,
            final(self).filled_collection_bids == old(self).filled_collection_bids,
            final(self).activities == old(self).activities,
    {
        let ghost models = self.collection_bids.deep_view();
        match find_collection_bid(&self.collection_bids, &row.bid_obj_addr) {
            Some(i) => {
                proof {
                    assert(forall|j: int|
                        0 <= j < models.len() ==> #[trigger] models[j] == old(
                            self,
                        ).collection_bids@[j]@);
                    lemma_upsert_match_at(
                        models,
                        row@,
                        collection_bid_key(),
                        collection_bid_placed_merge(),
                        i as int,
                    );
                }
                let merged = merge_collection_bid_placed_row(&self.collection_bids[i], row);
                self.collection_bids[i] = merged;
                proof {
                    assert(self.collection_bids.deep_view() =~= models.update(
                        i as int,
                        spec_merge_collection_bid_placed(models[i as int], row@),
                    ));
                }
            },
            None => {
                proof {
                    assert(forall|j: int|
                        0 <= j < models.len() ==> #[trigger] models[j] == old(
                            self,
                        ).collection_bids@[j]@);
                    lemma_upsert_no_match(
                        models,
                        row@,
                        collection_bid_key(),
                        collection_bid_placed_merge(),
                    );
                }
                self.collection_bids.push(row);
                proof {
                    assert(self.collection_bids.deep_view() =~= models.push(
                        self.collection_bids@.last()@,
                    ));
                }
            },
        }
    }

    /// Advances one collection bid's latest-fill coordinate under the
    /// latest-fill predicate.
    pub fn apply_collection_bid_filled(&mut self, row: CollectionBid)
        ensures
            final(self).collection_bids.deep_view() == upsert_row(
                old(self).collection_bids.deep_view(),
                row@,
                collection_bid_key(),
                collection_bid_filled_merge(),
            ),
            final(self).nft_asks == old(self).nft_asks,
            final(self).nft_bids == old(self).nft_bids,
            final(self).filled_collection_bids == old(self).filled_collection_bids,
            final(self).activities == old(self).activities,
    {
        let ghost models = self.collection_bids.deep_view();
        match find_collection_bid(&self.collection_bids, &row.bid_obj_addr) {
            Some(i) => {
                proof {
                    assert(forall|j: int|
                        0 <= j < models.len() ==> #[trigger] models[j] == old(
                            self,
                        ).collection_bids@[j]@);
                    lemma_upsert_match_at(
                        models,
                        row@,
                        collection_bid_key(),
                        collection_bid_filled_merge(),
                        i as int,
                    );
                }
                let merged = merge_collection_bid_filled_row(&self.collection_bids[i], row);
                self.collection_bids[i] = merged;
                proof {
                    assert(self.collection_bids.deep_view() =~= models.update(
                        i as int,
                        spec_merge_collection_bid_filled(models[i as int], row@),
                    ));
                }
            },
            None => {
                proof {
                    assert(forall|j: int|
                        0 <= j < models.len() ==> #[trigger] models[j] == old(
                            self,
                        ).collection_bids@[j]@);
                    lemma_upsert_no_match(
                        models,
                        row@,
                        collection_bid_key(),
                        collection_bid_filled_merge(),
                    );
                }
                self.collection_bids.push(row);
                proof {
                    assert(self.collection_bids.deep_view() =~= models.push(
                        self.collection_bids@.last()@,
                    ));
                }
            },
        }
    }

    /// Upserts one cancelled collection-bid row under the
    /// cancelled-phase predicate.
    pub fn apply_collection_bid_cancelled(&mut self, row: CollectionBid)
        ensures
            final(self).collection_bids.deep_view() == upsert_row(
                old(self).collection_bids.deep_view(),
                row@,
                collection_bid_key(),
                collection_bid_cancelled_merge(),
            ),
            final(self).nft_asks == old(self).nft_asks,
            final(self).nft_bids == old(self).nft_bids,
            final(self).filled_collection_bids == old(self).filled_collection_bids,
            final(self).activities == old(self).activities,
    {
        let ghost models = self.collection_bids.deep_view();
        match find_collection_bid(&self.collection_bids, &row.bid_obj_addr) {
            Some(i) => {
                proof {
                    assert(forall|j: int|
                        0 <= j < models.len() ==> #[trigger] models[j] == old(
                            self,
                        ).collection_bids@[j]@);
                    lemma_upsert_match_at(
                        models,
                        row@,
                        collection_bid_key(),
                        collection_bid_cancelled_merge(),
                        i as int,
                    );
                }
                let merged = merge_collection_bid_cancelled_row(&self.collection_bids[i], row);
                self.collection_bids[i] = merged;
                proof {
                    assert(self.collection_bids.deep_view() =~= models.update(
                        i as int,
                        spec_merge_collection_bid_cancelled(models[i as int], row@),
                    ));
                }
            },
            None => {
                proof {
                    assert(forall|j: int|
                        0 <= j < models.len() ==> #[trigger] models[j] == old(
                            self,
                        ).collection_bids@[j]@);
                    lemma_upsert_no_match(
                        models,
                        row@,
                        collection_bid_key(),
                        collection_bid_cancelled_merge(),
                    );
                }
                self.collection_bids.push(row);
                proof {
                    assert(self.collection_bids.deep_view() =~= models.push(
                        self.collection_bids@.last()@,
                    ));
                }
            },
        }
    }

    /// Upserts one fill row under the filled-phase predicate, keyed by
    /// the parent bid and the NFT.
    pub fn apply_filled_collection_bid(&mut self, row: FilledCollectionBid)
        ensures
            final(self).filled_collection_bids.deep_view() == upsert_row(
                old(self).filled_collection_bids.deep_view(),
                row@,
                filled_collection_bid_key(),
                filled_collection_bid_merge(),
            ),
            final(self).nft_asks == old(self).nft_asks,
            final(self).nft_bids == old(self).nft_bids,
            final(self).collection_bids == old(self).collection_bids,
            final(self).activities == old(self).activities,
    {
        let ghost models = self.filled_collection_bids.deep_view();
        match find_filled_collection_bid(&self.filled_collection_bids, &row) {
            Some(i) => {
                proof {
                    assert(forall|j: int|
                        0 <= j < models.len() ==> #[trigger] models[j] == old(
                            self,
                        ).filled_collection_bids@[j]@);
                    lemma_upsert_match_at(
                        models,
                        row@,
                        filled_collection_bid_key(),
                        filled_collection_bid_merge(),
                        i as int,
                    );
                }
                let merged = merge_filled_collection_bid_row(&self.filled_collection_bids[i], row);
                self.filled_collection_bids[i] = merged;
                proof {
                    assert(self.filled_collection_bids.deep_view() =~= models.update(
                        i as int,
                        spec_merge_filled_collection_bid(models[i as int], row@),
                    ));
                }
            },
            None => {
                proof {
                    assert(forall|j: int|
                        0 <= j < models.len() ==> #[trigger] models[j] == old(
                            self,
                        ).filled_collection_bids@[j]@);
                    lemma_upsert_no_match(
                        models,
                        row@,
                        filled_collection_bid_key(),
                        filled_collection_bid_merge(),
                    );
                }
                self.filled_collection_bids.push(row);
                proof {
                    assert(self.filled_collection_bids.deep_view() =~= models.push(
                        self.filled_collection_bids@.last()@,
                    ));
                }
            },
        }
    }

    /// Inserts one audit row; a row with the same coordinate already in
    /// the table is kept unchanged.
    pub fn apply_activity(&mut self, row: Activity)
        ensures
            final(self).activities.deep_view() == upsert_row(
                old(self).activities.deep_view(),
                row@,
                activity_key(),
                activity_merge(),
            ),
            final(self).nft_asks == old(self).nft_asks,
            final(self).nft_bids == old(self).nft_bids,
            final(self).collection_bids == old(self).collection_bids,
            final(self).filled_collection_bids == old(self).filled_collection_bids,
    {
        let ghost models = self.activities.deep_view();
        match find_activity(&self.activities, row.activity_tx_version, row.activity_event_idx) {
            Some(i) => {
                proof {
                    assert(forall|j: int|
                        0 <= j < models.len() ==> #[trigger] models[j] == old(
                            self,
                        ).activities@[j]@);
                    lemma_upsert_match_at(
                        models,
                        row@,
                        activity_key(),
                        activity_merge(),
                        i as int,
                    );
                    assert(models.update(i as int, models[i as int]) =~= models);
                }
            },
            None => {
                proof {
                    assert(forall|j: int|
                        0 <= j < models.len() ==> #[trigger] models[j] == old(
                            self,
                        ).activities@[j]@);
                    lemma_upsert_no_match(models, row@, activity_key(), activity_merge());
                }
                self.activities.push(row);
                proof {
                    assert(self.activities.deep_view() =~= models.push(self.activities@.last()@));
                }
            },
        }
    }
}

} // verus!
