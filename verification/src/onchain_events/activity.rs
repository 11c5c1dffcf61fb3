//! Activity rows derived from decoded order rows.
//!
//! Every decoded domain event yields one audit row beside its order row.
//! The audit row mirrors the order row's identity and economics and
//! carries the event's own coordinate and kind.

use vstd::prelude::*;

use crate::models::{Activity, CollectionBid, FilledCollectionBid, NftAsk, NftBid};

verus! {

/// The audit row of an ask event: the ask's fields under the event's
/// coordinate and kind.
pub fn ask_activity(ask: &NftAsk, activity_type: i32, timestamp: i64, tx_version: i64, event_idx: i64) -> (r: Activity)
    ensures
        r.nft_id@ == ask.nft_id@,
        r.nft_name@ == ask.nft_name@,
        r.collection_addr@ == ask.collection_addr@,
        r.collection_creator_addr@ == ask.collection_creator_addr@,
        r.collection_name@ == ask.collection_name@,
        r.nft_standard == ask.nft_standard,
        r.marketplace_addr@ == ask.marketplace_addr@,
        r.buyer_addr@ == ask.buyer_addr@,
        r.seller_addr@ == ask.seller_addr@,
        r.price == ask.price,
        r.royalties == ask.royalties,
        r.commission == ask.commission,
        r.payment_token@ == ask.payment_token@,
        r.payment_token_type == ask.payment_token_type,
        r.activity_timestamp == timestamp,
        r.activity_tx_version == tx_version,
        r.activity_event_idx == event_idx,
        r.activity_type == activity_type,
{
    Activity {
        nft_id: ask.nft_id.clone(),
        nft_name: ask.nft_name.clone(),
        collection_addr: ask.collection_addr.clone(),
        collection_creator_addr: ask.collection_creator_addr.clone(),
        collection_name: ask.collection_name.clone(),
        nft_standard: ask.nft_standard,
        marketplace_addr: ask.marketplace_addr.clone(),
        buyer_addr: ask.buyer_addr.clone(),
        seller_addr: ask.seller_addr.clone(),
        price: ask.price,
        royalties: ask.royalties,
        commission: ask.commission,
        payment_token: ask.payment_token.clone(),
        payment_token_type: ask.payment_token_type,
        activity_timestamp: timestamp,
        activity_tx_version: tx_version,
        activity_event_idx: event_idx,
        activity_type,
    }
}

/// The audit row of a bid event: the bid's fields under the event's
/// coordinate and kind.
pub fn bid_activity(bid: &NftBid, activity_type: i32, timestamp: i64, tx_version: i64, event_idx: i64) -> (r: Activity)
    ensures
        r.nft_id@ == bid.nft_id@,
        r.nft_name@ == bid.nft_name@,
        r.collection_addr@ == bid.collection_addr@,
        r.collection_creator_addr@ == bid.collection_creator_addr@,
        r.collection_name@ == bid.collection_name@,
        r.nft_standard == bid.nft_standard,
        r.marketplace_addr@ == bid.marketplace_addr@,
        r.buyer_addr@ == bid.buyer_addr@,
        r.seller_addr@ == bid.seller_addr@,
        r.price == bid.price,
        r.royalties == bid.royalties,
        r.commission == bid.commission,
        r.payment_token@ == bid.payment_token@,
        r.payment_token_type == bid.payment_token_type,
        r.activity_timestamp == timestamp,
        r.activity_tx_version == tx_version,
        r.activity_event_idx == event_idx,
        r.activity_type == activity_type,
{
    Activity {
        nft_id: bid.nft_id.clone(),
        nft_name: bid.nft_name.clone(),
        collection_addr: bid.collection_addr.clone(),
        collection_creator_addr: bid.collection_creator_addr.clone(),
        collection_name: bid.collection_name.clone(),
        nft_standard: bid.nft_standard,
        marketplace_addr: bid.marketplace_addr.clone(),
        buyer_addr: bid.buyer_addr.clone(),
        seller_addr: bid.seller_addr.clone(),
        price: bid.price,
        royalties: bid.royalties,
        commission: bid.commission,
        payment_token: bid.payment_token.clone(),
        payment_token_type: bid.payment_token_type,
        activity_timestamp: timestamp,
        activity_tx_version: tx_version,
        activity_event_idx: event_idx,
        activity_type,
    }
}

/// The audit row of a collection-bid event: the bid is collection-wide,
/// so the NFT fields stay empty.
pub fn collection_bid_activity(
    bid: &CollectionBid,
    activity_type: i32,
    timestamp: i64,
    tx_version: i64,
    event_idx: i64,
) -> (r: Activity)
    ensures
        r.nft_id@ == Seq::<char>::empty(),
        r.nft_name@ == Seq::<char>::empty(),
        r.collection_addr@ == bid.collection_addr@,
        r.collection_creator_addr@ == bid.collection_creator_addr@,
        r.collection_name@ == bid.collection_name@,
        r.nft_standard == bid.nft_standard,
        r.marketplace_addr@ == bid.marketplace_addr@,
        r.buyer_addr@ == bid.buyer_addr@,
        r.seller_addr@ == Seq::<char>::empty(),
        r.price == bid.price,
        r.royalties == 0,
        r.commission == 0,
        r.payment_token@ == bid.payment_token@,
        r.payment_token_type == bid.payment_token_type,
        r.activity_timestamp == timestamp,
        r.activity_tx_version == tx_version,
        r.activity_event_idx == event_idx,
        r.activity_type == activity_type,
{
    Activity {
        nft_id: String::new(),
        nft_name: String::new(),
        collection_addr: bid.collection_addr.clone(),
        collection_creator_addr: bid.collection_creator_addr.clone(),
        collection_name: bid.collection_name.clone(),
        nft_standard: bid.nft_standard,
        marketplace_addr: bid.marketplace_addr.clone(),
        buyer_addr: bid.buyer_addr.clone(),
        seller_addr: String::new(),
        price: bid.price,
        royalties: 0,
        commission: 0,
        payment_token: bid.payment_token.clone(),
        payment_token_type: bid.payment_token_type,
        activity_timestamp: timestamp,
        activity_tx_version: tx_version,
        activity_event_idx: event_idx,
        activity_type,
    }
}

/// The audit row of a collection-bid fill: NFT and seller come from the
/// concrete fill, collection identity from the parent bid.
pub fn filled_collection_bid_activity(
    bid: &CollectionBid,
    fill: &FilledCollectionBid,
    activity_type: i32,
    timestamp: i64,
    tx_version: i64,
    event_idx: i64,
) -> (r: Activity)
    ensures
        r.nft_id@ == fill.nft_id@,
        r.nft_name@ == fill.nft_name@,
        r.collection_addr@ == bid.collection_addr@,
        r.collection_creator_addr@ == bid.collection_creator_addr@,
        r.collection_name@ == bid.collection_name@,
        r.nft_standard == bid.nft_standard,
        r.marketplace_addr@ == bid.marketplace_addr@,
        r.buyer_addr@ == bid.buyer_addr@,
        r.seller_addr@ == fill.seller_addr@,
        r.price == fill.price,
        r.royalties == fill.royalties,
        r.commission == fill.commission,
        r.payment_token@ == bid.payment_token@,
        r.payment_token_type == bid.payment_token_type,
        r.activity_timestamp == timestamp,
        r.activity_tx_version == tx_version,
        r.activity_event_idx == event_idx,
        r.activity_type == activity_type,
{
    Activity {
        nft_id: fill.nft_id.clone(),
        nft_name: fill.nft_name.clone(),
        collection_addr: bid.collection_addr.clone(),
        collection_creator_addr: bid.collection_creator_addr.clone(),
        collection_name: bid.collection_name.clone(),
        nft_standard: bid.nft_standard,
        marketplace_addr: bid.marketplace_addr.clone(),
        buyer_addr: bid.buyer_addr.clone(),
        seller_addr: fill.seller_addr.clone(),
        price: fill.price,
        royalties: fill.royalties,
        commission: fill.commission,
        payment_token: bid.payment_token.clone(),
        payment_token_type: bid.payment_token_type,
        activity_timestamp: timestamp,
        activity_tx_version: tx_version,
        activity_event_idx: event_idx,
        activity_type,
    }
}

} // verus!
