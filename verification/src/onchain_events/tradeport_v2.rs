//! Events of the Tradeport v2 marketplace contract.
//!
//! This contract mints an object for every order, so rows are keyed by
//! the order object's address. The events identify the NFT by its object
//! address and carry an on-chain timestamp, which the rows keep.

use vstd::prelude::*;

use crate::address::{spec_standardize_address, standardize_address};
use crate::aptos_utils::{apt_coin, ActivityType, AskOrderType, OrderStatus, PaymentTokenType};
use crate::decode::{parse_i64, spec_decimal_value, spec_parses, DecodeError};
use crate::metadata::MoveObject;
use crate::models::{Activity, CollectionBid, FilledCollectionBid, NftAsk, NftBid};
use crate::onchain_events::activity::{
    ask_activity, bid_activity, collection_bid_activity, filled_collection_bid_activity,
};

verus! {

fn fail(msg: &str) -> (r: DecodeError) {
    DecodeError { message: String::from_str(msg) }
}

/// `InsertTokenBidEvent`: a bid on one NFT was placed.
pub struct TradeportV2BidPlacedEventOnChain {
    pub timestamp: String,
    pub bid: MoveObject,
    pub bid_buyer: String,
    pub token: MoveObject,
    pub price: String,
}

/// `AcceptTokenBidEvent`: a bid on one NFT was accepted.
pub struct TradeportV2BidFilledEventOnChain {
    pub timestamp: String,
    pub bid: MoveObject,
    pub bid_buyer: String,
    pub bid_seller: String,
    pub token: MoveObject,
    pub price: String,
}

/// `DeleteTokenBidEvent`: a bid on one NFT was withdrawn.
pub struct TradeportV2BidCancelledEventOnChain {
    pub timestamp: String,
    pub bid: MoveObject,
    pub bid_buyer: String,
    pub token: MoveObject,
    pub price: String,
}

impl TradeportV2BidPlacedEventOnChain {
    /// The bid row this event creates: open, with only the placed phase
    /// set. The NFT id is the token object's address in canonical form.
    pub fn to_db_nft_bid(&self, marketplace_addr: String, tx_version: i64, event_idx: i64) -> (r:
        Result<(NftBid, Activity), DecodeError>)
        ensures
            r is Ok <==> spec_parses(self.price@) && spec_parses(self.timestamp@),
            r is Ok ==> ({
                let b = r->Ok_0.0;
                let a = r->Ok_0.1;
                &&& b.bid_obj_addr@ == spec_standardize_address(self.bid.inner@)
                &&& b.nft_id@ == spec_standardize_address(self.token.inner@)
                &&& b.nft_name@ == Seq::<char>::empty()
                &&& b.collection_addr@ == Seq::<char>::empty()
                &&& b.collection_creator_addr@ == Seq::<char>::empty()
                &&& b.collection_name@ == Seq::<char>::empty()
                &&& b.nft_standard == 2
                &&& b.marketplace_addr@ == marketplace_addr@
                &&& b.buyer_addr@ == spec_standardize_address(self.bid_buyer@)
                &&& b.seller_addr@ == Seq::<char>::empty()
                &&& b.price == spec_decimal_value(self.price@)
                &&& b.royalties == 0
                &&& b.commission == 0
                &&& b.payment_token@ == "0x1::aptos_coin::AptosCoin"@
                &&& b.payment_token_type == 1
                &&& b.order_placed_timestamp == spec_decimal_value(self.timestamp@)
                &&& b.order_placed_tx_version == tx_version
                &&& b.order_placed_event_idx == event_idx
                &&& b.order_filled_timestamp == 0
                &&& b.order_filled_tx_version == 0
                &&& b.order_filled_event_idx == 0
                &&& b.order_cancelled_timestamp == 0
                &&& b.order_cancelled_tx_version == 0
                &&& b.order_cancelled_event_idx == 0
                &&& b.order_status == 1
                &&& b.order_expiration_timestamp == 0
                &&& a.nft_id@ == b.nft_id@
                &&& a.nft_name@ == b.nft_name@
                &&& a.collection_addr@ == b.collection_addr@
                &&& a.collection_creator_addr@ == b.collection_creator_addr@
                &&& a.collection_name@ == b.collection_name@
                &&& a.nft_standard == b.nft_standard
                &&& a.marketplace_addr@ == b.marketplace_addr@
                &&& a.buyer_addr@ == b.buyer_addr@
                &&& a.seller_addr@ == b.seller_addr@
                &&& a.price == b.price
                &&& a.royalties == 0
                &&& a.commission == 0
                &&& a.activity_timestamp == b.order_placed_timestamp
                &&& a.activity_tx_version == tx_version
                &&& a.activity_event_idx == event_idx
                &&& a.activity_type == 7
            }),
    {
        let price = match parse_i64(self.price.as_str()) {
            Some(p) => p,
            None => {
                return Err(fail("InsertTokenBidEvent: invalid price"));
            },
        };
        let timestamp = match parse_i64(self.timestamp.as_str()) {
            Some(p) => p,
            None => {
                return Err(fail("InsertTokenBidEvent: invalid timestamp"));
            },
        };
        let bid = NftBid {
            bid_obj_addr: standardize_address(self.bid.inner.as_str()),
            nft_id: standardize_address(self.token.inner.as_str()),
            nft_name: String::new(),
            collection_addr: String::new(),
            collection_creator_addr: String::new(),
            collection_name: String::new(),
            nft_standard: 2,
            marketplace_addr,
            buyer_addr: standardize_address(self.bid_buyer.as_str()),
            seller_addr: String::new(),
            price,
            royalties: 0,
            commission: 0,
            payment_token: apt_coin(),
            payment_token_type: PaymentTokenType::Coin.to_i32(),
            order_placed_timestamp: timestamp,
            order_placed_tx_version: tx_version,
            order_placed_event_idx: event_idx,
            order_filled_timestamp: 0,
            order_filled_tx_version: 0,
            order_filled_event_idx: 0,
            order_cancelled_timestamp: 0,
            order_cancelled_tx_version: 0,
            order_cancelled_event_idx: 0,
            order_status: OrderStatus::Open.to_i32(),
            order_expiration_timestamp: 0,
        };
        let act = bid_activity(
            &bid,
            ActivityType::NFTAskPlaced.to_i32(),
            timestamp,
            tx_version,
            event_idx,
        );
        Ok((bid, act))
    }
}

impl TradeportV2BidFilledEventOnChain {
    /// The bid row this event creates: filled, with only the filled
    /// phase set.
    pub fn to_db_nft_bid(&self, marketplace_addr: String, tx_version: i64, event_idx: i64) -> (r:
        Result<(NftBid, Activity), DecodeError>)
        ensures
            r is Ok <==> spec_parses(self.price@) && spec_parses(self.timestamp@),
            r is Ok ==> ({
                let b = r->Ok_0.0;
                let a = r->Ok_0.1;
                &&& b.bid_obj_addr@ == spec_standardize_address(self.bid.inner@)
                &&& b.nft_id@ == spec_standardize_address(self.token.inner@)
                &&& b.nft_name@ == Seq::<char>::empty()
                &&& b.collection_addr@ == Seq::<char>::empty()
                &&& b.collection_creator_addr@ == Seq::<char>::empty()
                &&& b.collection_name@ == Seq::<char>::empty()
                &&& b.nft_standard == 2
                &&& b.marketplace_addr@ == marketplace_addr@
                &&& b.buyer_addr@ == spec_standardize_address(self.bid_buyer@)
                &&& b.seller_addr@ == spec_standardize_address(self.bid_seller@)
                &&& b.price == spec_decimal_value(self.price@)
                &&& b.royalties == 0
                &&& b.commission == 0
                &&& b.payment_token@ == "0x1::aptos_coin::AptosCoin"@
                &&& b.payment_token_type == 1
                &&& b.order_placed_timestamp == 0
                &&& b.order_placed_tx_version == 0
                &&& b.order_placed_event_idx == 0
                &&& b.order_filled_timestamp == spec_decimal_value(self.timestamp@)
                &&& b.order_filled_tx_version == tx_version
                &&& b.order_filled_event_idx == event_idx
                &&& b.order_cancelled_timestamp == 0
                &&& b.order_cancelled_tx_version == 0
                &&& b.order_cancelled_event_idx == 0
                &&& b.order_status == 2
                &&& b.order_expiration_timestamp == 0
                &&& a.nft_id@ == b.nft_id@
                &&& a.nft_name@ == b.nft_name@
                &&& a.collection_addr@ == b.collection_addr@
                &&& a.collection_creator_addr@ == b.collection_creator_addr@
                &&& a.collection_name@ == b.collection_name@
                &&& a.nft_standard == b.nft_standard
                &&& a.marketplace_addr@ == b.marketplace_addr@
                &&& a.buyer_addr@ == b.buyer_addr@
                &&& a.seller_addr@ == b.seller_addr@
                &&& a.price == b.price
                &&& a.royalties == 0
                &&& a.commission == 0
                &&& a.activity_timestamp == b.order_filled_timestamp
                &&& a.activity_tx_version == tx_version
                &&& a.activity_event_idx == event_idx
                &&& a.activity_type == 5
            }),
    {
        let price = match parse_i64(self.price.as_str()) {
            Some(p) => p,
            None => {
                return Err(fail("AcceptTokenBidEvent: invalid price"));
            },
        };
        let timestamp = match parse_i64(self.timestamp.as_str()) {
            Some(p) => p,
            None => {
                return Err(fail("AcceptTokenBidEvent: invalid timestamp"));
            },
        };
        let bid = NftBid {
            bid_obj_addr: standardize_address(self.bid.inner.as_str()),
            nft_id: standardize_address(self.token.inner.as_str()),
            nft_name: String::new(),
            collection_addr: String::new(),
            collection_creator_addr: String::new(),
            collection_name: String::new(),
            nft_standard: 2,
            marketplace_addr,
            buyer_addr: standardize_address(self.bid_buyer.as_str()),
            seller_addr: standardize_address(self.bid_seller.as_str()),
            price,
            royalties: 0,
            commission: 0,
            payment_token: apt_coin(),
            payment_token_type: PaymentTokenType::Coin.to_i32(),
            order_placed_timestamp: 0,
            order_placed_tx_version: 0,
            order_placed_event_idx: 0,
            order_filled_timestamp: timestamp,
            order_filled_tx_version: tx_version,
            order_filled_event_idx: event_idx,
            order_cancelled_timestamp: 0,
            order_cancelled_tx_version: 0,
            order_cancelled_event_idx: 0,
            order_status: OrderStatus::Filled.to_i32(),
            order_expiration_timestamp: 0,
        };
        let act = bid_activity(
            &bid,
            ActivityType::NFTBidFilled.to_i32(),
            timestamp,
            tx_version,
            event_idx,
        );
        Ok((bid, act))
    }
}

impl TradeportV2BidCancelledEventOnChain {
    /// The bid row this event creates: cancelled, with only the
    /// cancelled phase set.
    pub fn to_db_nft_bid(&self, marketplace_addr: String, tx_version: i64, event_idx: i64) -> (r:
        Result<(NftBid, Activity), DecodeError>)
        ensures
            r is Ok <==> spec_parses(self.price@) && spec_parses(self.timestamp@),
            r is Ok ==> ({
                let b = r->Ok_0.0;
                let a = r->Ok_0.1;
                &&& b.bid_obj_addr@ == spec_standardize_address(self.bid.inner@)
                &&& b.nft_id@ == spec_standardize_address(self.token.inner@)
                &&& b.nft_name@ == Seq::<char>::empty()
                &&& b.collection_addr@ == Seq::<char>::empty()
                &&& b.collection_creator_addr@ == Seq::<char>::empty()
                &&& b.collection_name@ == Seq::<char>::empty()
                &&& b.nft_standard == 2
                &&& b.marketplace_addr@ == marketplace_addr@
                &&& b.buyer_addr@ == spec_standardize_address(self.bid_buyer@)
                &&& b.seller_addr@ == Seq::<char>::empty()
                &&& b.price == spec_decimal_value(self.price@)
                &&& b.royalties == 0
                &&& b.commission == 0
                &&& b.payment_token@ == "0x1::aptos_coin::AptosCoin"@
                &&& b.payment_token_type == 1
                &&& b.order_placed_timestamp == 0
                &&& b.order_placed_tx_version == 0
                &&& b.order_placed_event_idx == 0
                &&& b.order_filled_timestamp == 0
                &&& b.order_filled_tx_version == 0
                &&& b.order_filled_event_idx == 0
                &&& b.order_cancelled_timestamp == spec_decimal_value(self.timestamp@)
                &&& b.order_cancelled_tx_version == tx_version
                &&& b.order_cancelled_event_idx == event_idx
                &&& b.order_status == 3
                &&& b.order_expiration_timestamp == 0
                &&& a.nft_id@ == b.nft_id@
                &&& a.nft_name@ == b.nft_name@
                &&& a.collection_addr@ == b.collection_addr@
                &&& a.collection_creator_addr@ == b.collection_creator_addr@
                &&& a.collection_name@ == b.collection_name@
                &&& a.nft_standard == b.nft_standard
                &&& a.marketplace_addr@ == b.marketplace_addr@
                &&& a.buyer_addr@ == b.buyer_addr@
                &&& a.seller_addr@ == b.seller_addr@
                &&& a.price == b.price
                &&& a.royalties == 0
                &&& a.commission == 0
                &&& a.activity_timestamp == b.order_cancelled_timestamp
                &&& a.activity_tx_version == tx_version
                &&& a.activity_event_idx == event_idx
                &&& a.activity_type == 6
            }),
    {
        let price = match parse_i64(self.price.as_str()) {
            Some(p) => p,
            None => {
                return Err(fail("DeleteTokenBidEvent: invalid price"));
            },
        };
        let timestamp = match parse_i64(self.timestamp.as_str()) {
            Some(p) => p,
            None => {
                return Err(fail("DeleteTokenBidEvent: invalid timestamp"));
            },
        };
        let bid = NftBid {
            bid_obj_addr: standardize_address(self.bid.inner.as_str()),
            nft_id: standardize_address(self.token.inner.as_str()),
            nft_name: String::new(),
            collection_addr: String::new(),
            collection_creator_addr: String::new(),
            collection_name: String::new(),
            nft_standard: 2,
            marketplace_addr,
            buyer_addr: standardize_address(self.bid_buyer.as_str()),
            seller_addr: String::new(),
            price,
            royalties: 0,
            commission: 0,
            payment_token: apt_coin(),
            payment_token_type: PaymentTokenType::Coin.to_i32(),
            order_placed_timestamp: 0,
            order_placed_tx_version: 0,
            order_placed_event_idx: 0,
            order_filled_timestamp: 0,
            order_filled_tx_version: 0,
            order_filled_event_idx: 0,
            order_cancelled_timestamp: timestamp,
            order_cancelled_tx_version: tx_version,
            order_cancelled_event_idx: event_idx,
            order_status: OrderStatus::Cancelled.to_i32(),
            order_expiration_timestamp: 0,
        };
        let act = bid_activity(
            &bid,
            ActivityType::NFTBidCancelled.to_i32(),
            timestamp,
            tx_version,
            event_idx,
        );
        Ok((bid, act))
    }
}

/// `InsertListingEvent`: an NFT was listed for sale.
pub struct TradeportV2AskPlacedEventOnChain {
    pub listing: MoveObject,
    pub timestamp: String,
    pub token: MoveObject,
    pub price: String,
    pub seller: String,
}

/// `BuyEvent`: a listing was bought.
pub struct TradeportV2AskFilledEventOnChain {
    pub listing: MoveObject,
    pub timestamp: String,
    pub token: MoveObject,
    pub price: String,
    pub seller: String,
    pub buyer: String,
}

/// `DeleteListingEvent`: a listing was withdrawn.
pub struct TradeportV2AskCancelledEventOnChain {
    pub listing: MoveObject,
    pub timestamp: String,
    pub token: MoveObject,
    pub price: String,
    pub seller: String,
}

impl TradeportV2AskPlacedEventOnChain {
    /// The ask row this event creates: open, with only the placed phase
    /// set, keyed by the listing object's address.
    pub fn to_db_nft_ask(&self, marketplace_addr: String, tx_version: i64, event_idx: i64) -> (r:
        Result<(NftAsk, Activity), DecodeError>)
        ensures
            r is Ok <==> spec_parses(self.price@) && spec_parses(self.timestamp@),
            r is Ok ==> ({
                let b = r->Ok_0.0;
                let a = r->Ok_0.1;
                &&& b.ask_obj_addr@ == spec_standardize_address(self.listing.inner@)
                &&& b.nft_id@ == spec_standardize_address(self.token.inner@)
                &&& b.nft_name@ == Seq::<char>::empty()
                &&& b.collection_addr@ == Seq::<char>::empty()
                &&& b.collection_creator_addr@ == Seq::<char>::empty()
                &&& b.collection_name@ == Seq::<char>::empty()
                &&& b.nft_standard == 2
                &&& b.marketplace_addr@ == marketplace_addr@
                &&& b.buyer_addr@ == Seq::<char>::empty()
                &&& b.seller_addr@ == spec_standardize_address(self.seller@)
                &&& b.price == spec_decimal_value(self.price@)
                &&& b.royalties == 0
                &&& b.commission == 0
                &&& b.payment_token@ == "0x1::aptos_coin::AptosCoin"@
                &&& b.payment_token_type == 1
                &&& b.order_placed_timestamp == spec_decimal_value(self.timestamp@)
                &&& b.order_placed_tx_version == tx_version
                &&& b.order_placed_event_idx == event_idx
                &&& b.order_filled_timestamp == 0
                &&& b.order_filled_tx_version == 0
                &&& b.order_filled_event_idx == 0
                &&& b.order_cancelled_timestamp == 0
                &&& b.order_cancelled_tx_version == 0
                &&& b.order_cancelled_event_idx == 0
                &&& b.order_status == 1
                &&& b.order_type == 1
                &&& a.nft_id@ == b.nft_id@
                &&& a.nft_name@ == b.nft_name@
                &&& a.collection_addr@ == b.collection_addr@
                &&& a.collection_creator_addr@ == b.collection_creator_addr@
                &&& a.collection_name@ == b.collection_name@
                &&& a.nft_standard == b.nft_standard
                &&& a.marketplace_addr@ == b.marketplace_addr@
                &&& a.buyer_addr@ == b.buyer_addr@
                &&& a.seller_addr@ == b.seller_addr@
                &&& a.price == b.price
                &&& a.royalties == 0
                &&& a.commission == 0
                &&& a.activity_timestamp == b.order_placed_timestamp
                &&& a.activity_tx_version == tx_version
                &&& a.activity_event_idx == event_idx
                &&& a.activity_type == 7
            }),
    {
        let price = match parse_i64(self.price.as_str()) {
            Some(p) => p,
            None => {
                return Err(fail("InsertListingEvent: invalid price"));
            },
        };
        let timestamp = match parse_i64(self.timestamp.as_str()) {
            Some(p) => p,
            None => {
                return Err(fail("InsertListingEvent: invalid timestamp"));
            },
        };
        let ask = NftAsk {
            ask_obj_addr: standardize_address(self.listing.inner.as_str()),
            nft_id: standardize_address(self.token.inner.as_str()),
            nft_name: String::new(),
            collection_addr: String::new(),
            collection_creator_addr: String::new(),
            collection_name: String::new(),
            nft_standard: 2,
            marketplace_addr,
            buyer_addr: String::new(),
            seller_addr: standardize_address(self.seller.as_str()),
            price,
            royalties: 0,
            commission: 0,
            payment_token: apt_coin(),
            payment_token_type: PaymentTokenType::Coin.to_i32(),
            order_placed_timestamp: timestamp,
            order_placed_tx_version: tx_version,
            order_placed_event_idx: event_idx,
            order_filled_timestamp: 0,
            order_filled_tx_version: 0,
            order_filled_event_idx: 0,
            order_cancelled_timestamp: 0,
            order_cancelled_tx_version: 0,
            order_cancelled_event_idx: 0,
            order_status: OrderStatus::Open.to_i32(),
            order_type: AskOrderType::FixedPrice.to_i32(),
        };
        let act = ask_activity(
            &ask,
            ActivityType::NFTAskPlaced.to_i32(),
            timestamp,
            tx_version,
            event_idx,
        );
        Ok((ask, act))
    }
}

impl TradeportV2AskFilledEventOnChain {
    /// The ask row this event creates: filled, with only the filled
    /// phase set.
    pub fn to_db_nft_ask(&self, marketplace_addr: String, tx_version: i64, event_idx: i64) -> (r:
        Result<(NftAsk, Activity), DecodeError>)
        ensures
            r is Ok <==> spec_parses(self.price@) && spec_parses(self.timestamp@),
            r is Ok ==> ({
                let b = r->Ok_0.0;
                let a = r->Ok_0.1;
                &&& b.ask_obj_addr@ == spec_standardize_address(self.listing.inner@)
                &&& b.nft_id@ == spec_standardize_address(self.token.inner@)
                &&& b.nft_name@ == Seq::<char>::empty()
                &&& b.collection_addr@ == Seq::<char>::empty()
                &&& b.collection_creator_addr@ == Seq::<char>::empty()
                &&& b.collection_name@ == Seq::<char>::empty()
                &&& b.nft_standard == 2
                &&& b.marketplace_addr@ == marketplace_addr@
                &&& b.buyer_addr@ == spec_standardize_address(self.buyer@)
                &&& b.seller_addr@ == spec_standardize_address(self.seller@)
                &&& b.price == spec_decimal_value(self.price@)
                &&& b.royalties == 0
                &&& b.commission == 0
                &&& b.payment_token@ == "0x1::aptos_coin::AptosCoin"@
                &&& b.payment_token_type == 1
                &&& b.order_placed_timestamp == 0
                &&& b.order_placed_tx_version == 0
                &&& b.order_placed_event_idx == 0
                &&& b.order_filled_timestamp == spec_decimal_value(self.timestamp@)
                &&& b.order_filled_tx_version == tx_version
                &&& b.order_filled_event_idx == event_idx
                &&& b.order_cancelled_timestamp == 0
                &&& b.order_cancelled_tx_version == 0
                &&& b.order_cancelled_event_idx == 0
                &&& b.order_status == 2
                &&& b.order_type == 1
                &&& a.nft_id@ == b.nft_id@
                &&& a.nft_name@ == b.nft_name@
                &&& a.collection_addr@ == b.collection_addr@
                &&& a.collection_creator_addr@ == b.collection_creator_addr@
                &&& a.collection_name@ == b.collection_name@
                &&& a.nft_standard == b.nft_standard
                &&& a.marketplace_addr@ == b.marketplace_addr@
                &&& a.buyer_addr@ == b.buyer_addr@
                &&& a.seller_addr@ == b.seller_addr@
                &&& a.price == b.price
                &&& a.royalties == 0
                &&& a.commission == 0
                &&& a.activity_timestamp == b.order_filled_timestamp
                &&& a.activity_tx_version == tx_version
                &&& a.activity_event_idx == event_idx
                &&& a.activity_type == 8
            }),
    {
        let price = match parse_i64(self.price.as_str()) {
            Some(p) => p,
            None => {
                return Err(fail("BuyEvent: invalid price"));
            },
        };
        let timestamp = match parse_i64(self.timestamp.as_str()) {
            Some(p) => p,
            None => {
                return Err(fail("BuyEvent: invalid timestamp"));
            },
        };
        let ask = NftAsk {
            ask_obj_addr: standardize_address(self.listing.inner.as_str()),
            nft_id: standardize_address(self.token.inner.as_str()),
            nft_name: String::new(),
            collection_addr: String::new(),
            collection_creator_addr: String::new(),
            collection_name: String::new(),
            nft_standard: 2,
            marketplace_addr,
            buyer_addr: standardize_address(self.buyer.as_str()),
            seller_addr: standardize_address(self.seller.as_str()),
            price,
            royalties: 0,
            commission: 0,
            payment_token: apt_coin(),
            payment_token_type: PaymentTokenType::Coin.to_i32(),
            order_placed_timestamp: 0,
            order_placed_tx_version: 0,
            order_placed_event_idx: 0,
            order_filled_timestamp: timestamp,
            order_filled_tx_version: tx_version,
            order_filled_event_idx: event_idx,
            order_cancelled_timestamp: 0,
            order_cancelled_tx_version: 0,
            order_cancelled_event_idx: 0,
            order_status: OrderStatus::Filled.to_i32(),
            order_type: AskOrderType::FixedPrice.to_i32(),
        };
        let act = ask_activity(
            &ask,
            ActivityType::NFTAskFilled.to_i32(),
            timestamp,
            tx_version,
            event_idx,
        );
        Ok((ask, act))
    }
}

impl TradeportV2AskCancelledEventOnChain {
    /// The ask row this event creates: cancelled, with only the
    /// cancelled phase set.
    pub fn to_db_nft_ask(&self, marketplace_addr: String, tx_version: i64, event_idx: i64) -> (r:
        Result<(NftAsk, Activity), DecodeError>)
        ensures
            r is Ok <==> spec_parses(self.price@) && spec_parses(self.timestamp@),
            r is Ok ==> ({
                let b = r->Ok_0.0;
                let a = r->Ok_0.1;
                &&& b.ask_obj_addr@ == spec_standardize_address(self.listing.inner@)
                &&& b.nft_id@ == spec_standardize_address(self.token.inner@)
                &&& b.nft_name@ == Seq::<char>::empty()
                &&& b.collection_addr@ == Seq::<char>::empty()
                &&& b.collection_creator_addr@ == Seq::<char>::empty()
                &&& b.collection_name@ == Seq::<char>::empty()
                &&& b.nft_standard == 2
                &&& b.marketplace_addr@ == marketplace_addr@
                &&& b.buyer_addr@ == Seq::<char>::empty()
                &&& b.seller_addr@ == spec_standardize_address(self.seller@)
                &&& b.price == spec_decimal_value(self.price@)
                &&& b.royalties == 0
                &&& b.commission == 0
                &&& b.payment_token@ == "0x1::aptos_coin::AptosCoin"@
                &&& b.payment_token_type == 1
                &&& b.order_placed_timestamp == 0
                &&& b.order_placed_tx_version == 0
                &&& b.order_placed_event_idx == 0
                &&& b.order_filled_timestamp == 0
                &&& b.order_filled_tx_version == 0
                &&& b.order_filled_event_idx == 0
                &&& b.order_cancelled_timestamp == spec_decimal_value(self.timestamp@)
                &&& b.order_cancelled_tx_version == tx_version
                &&& b.order_cancelled_event_idx == event_idx
                &&& b.order_status == 3
                &&& b.order_type == 1
                &&& a.nft_id@ == b.nft_id@
                &&& a.nft_name@ == b.nft_name@
                &&& a.collection_addr@ == b.collection_addr@
                &&& a.collection_creator_addr@ == b.collection_creator_addr@
                &&& a.collection_name@ == b.collection_name@
                &&& a.nft_standard == b.nft_standard
                &&& a.marketplace_addr@ == b.marketplace_addr@
                &&& a.buyer_addr@ == b.buyer_addr@
                &&& a.seller_addr@ == b.seller_addr@
                &&& a.price == b.price
                &&& a.royalties == 0
                &&& a.commission == 0
                &&& a.activity_timestamp == b.order_cancelled_timestamp
                &&& a.activity_tx_version == tx_version
                &&& a.activity_event_idx == event_idx
                &&& a.activity_type == 9
            }),
    {
        let price = match parse_i64(self.price.as_str()) {
            Some(p) => p,
            None => {
                return Err(fail("DeleteListingEvent: invalid price"));
            },
        };
        let timestamp = match parse_i64(self.timestamp.as_str()) {
            Some(p) => p,
            None => {
                return Err(fail("DeleteListingEvent: invalid timestamp"));
            },
        };
        let ask = NftAsk {
            ask_obj_addr: standardize_address(self.listing.inner.as_str()),
            nft_id: standardize_address(self.token.inner.as_str()),
            nft_name: String::new(),
            collection_addr: String::new(),
            collection_creator_addr: String::new(),
            collection_name: String::new(),
            nft_standard: 2,
            marketplace_addr,
            buyer_addr: String::new(),
            seller_addr: standardize_address(self.seller.as_str()),
            price,
            royalties: 0,
            commission: 0,
            payment_token: apt_coin(),
            payment_token_type: PaymentTokenType::Coin.to_i32(),
            order_placed_timestamp: 0,
            order_placed_tx_version: 0,
            order_placed_event_idx: 0,
            order_filled_timestamp: 0,
            order_filled_tx_version: 0,
            order_filled_event_idx: 0,
            order_cancelled_timestamp: timestamp,
            order_cancelled_tx_version: tx_version,
            order_cancelled_event_idx: event_idx,
            order_status: OrderStatus::Cancelled.to_i32(),
            order_type: AskOrderType::FixedPrice.to_i32(),
        };
        let act = ask_activity(
            &ask,
            ActivityType::NFTAskCancelled.to_i32(),
            timestamp,
            tx_version,
            event_idx,
        );
        Ok((ask, act))
    }
}

/// `InsertCollectionBidEvent`: a collection-wide bid was placed.
pub struct TradeportV2CollectionBidPlacedEventOnChain {
    pub timestamp: String,
    pub bid: MoveObject,
    pub bid_buyer: String,
    pub collection: MoveObject,
    pub price: String,
}

/// `AcceptCollectionBidEvent`: one NFT was sold into a collection-wide
/// bid.
pub struct TradeportV2CollectionBidFilledEventOnChain {
    pub timestamp: String,
    pub bid: MoveObject,
    pub bid_buyer: String,
    pub bid_seller: String,
    pub token: MoveObject,
    pub price: String,
}

/// `DeleteCollectionBidEvent`: a collection-wide bid was withdrawn.
pub struct TradeportV2CollectionBidCancelledEventOnChain {
    pub timestamp: String,
    pub bid: MoveObject,
    pub bid_buyer: String,
    pub collection: MoveObject,
    pub price: String,
}

impl TradeportV2CollectionBidPlacedEventOnChain {
    /// The collection-bid row this event creates: open, with only the
    /// placed phase set.
    pub fn to_db_collection_bid(&self, marketplace_addr: String, tx_version: i64, event_idx: i64) -> (r: Result<(CollectionBid, Activity), DecodeError>)
        ensures
            r is Ok <==> spec_parses(self.price@) && spec_parses(self.timestamp@),
            r is Ok ==> ({
                let b = r->Ok_0.0;
                let a = r->Ok_0.1;
                &&& b.bid_obj_addr@ == spec_standardize_address(self.bid.inner@)
                &&& b.collection_addr@ == spec_standardize_address(self.collection.inner@)
                &&& b.collection_creator_addr@ == Seq::<char>::empty()
                &&& b.collection_name@ == Seq::<char>::empty()
                &&& b.nft_standard == 2
                &&& b.marketplace_addr@ == marketplace_addr@
                &&& b.buyer_addr@ == spec_standardize_address(self.bid_buyer@)
                &&& b.total_nft_amount == 1
                &&& b.price == spec_decimal_value(self.price@)
                &&& b.payment_token@ == "0x1::aptos_coin::AptosCoin"@
                &&& b.payment_token_type == 1
                &&& b.order_placed_timestamp == spec_decimal_value(self.timestamp@)
                &&& b.order_placed_tx_version == tx_version
                &&& b.order_placed_event_idx == event_idx
                &&& b.latest_order_filled_timestamp == 0
                &&& b.latest_order_filled_tx_version == 0
                &&& b.latest_order_filled_event_idx == 0
                &&& b.order_cancelled_timestamp == 0
                &&& b.order_cancelled_tx_version == 0
                &&& b.order_cancelled_event_idx == 0
                &&& b.order_status == 1
                &&& b.order_expiration_timestamp == 0
                &&& a.nft_id@ == Seq::<char>::empty()
                &&& a.nft_name@ == Seq::<char>::empty()
                &&& a.collection_addr@ == b.collection_addr@
                &&& a.collection_creator_addr@ == b.collection_creator_addr@
                &&& a.collection_name@ == b.collection_name@
                &&& a.nft_standard == b.nft_standard
                &&& a.marketplace_addr@ == b.marketplace_addr@
                &&& a.buyer_addr@ == b.buyer_addr@
                &&& a.seller_addr@ == Seq::<char>::empty()
                &&& a.price == b.price
                &&& a.royalties == 0
                &&& a.commission == 0
                &&& a.activity_timestamp == b.order_placed_timestamp
                &&& a.activity_tx_version == tx_version
                &&& a.activity_event_idx == event_idx
                &&& a.activity_type == 1
            }),
    {
        let price = match parse_i64(self.price.as_str()) {
            Some(p) => p,
            None => {
                return Err(fail("InsertCollectionBidEvent: invalid price"));
            },
        };
        let timestamp = match parse_i64(self.timestamp.as_str()) {
            Some(p) => p,
            None => {
                return Err(fail("InsertCollectionBidEvent: invalid timestamp"));
            },
        };
        let bid = CollectionBid {
            bid_obj_addr: standardize_address(self.bid.inner.as_str()),
            collection_addr: standardize_address(self.collection.inner.as_str()),
            collection_creator_addr: String::new(),
            collection_name: String::new(),
            nft_standard: 2,
            marketplace_addr,
            buyer_addr: standardize_address(self.bid_buyer.as_str()),
            total_nft_amount: 1,
            price,
            payment_token: apt_coin(),
            payment_token_type: PaymentTokenType::Coin.to_i32(),
            order_placed_timestamp: timestamp,
            order_placed_tx_version: tx_version,
            order_placed_event_idx: event_idx,
            latest_order_filled_timestamp: 0,
            latest_order_filled_tx_version: 0,
            latest_order_filled_event_idx: 0,
            order_cancelled_timestamp: 0,
            order_cancelled_tx_version: 0,
            order_cancelled_event_idx: 0,
            order_status: OrderStatus::Open.to_i32(),
            order_expiration_timestamp: 0,
        };
        let act = collection_bid_activity(
            &bid,
            ActivityType::CollectionBidPlaced.to_i32(),
            timestamp,
            tx_version,
            event_idx,
        );
        Ok((bid, act))
    }
}

impl TradeportV2CollectionBidFilledEventOnChain {
    /// The parent collection-bid update (only the latest-fill coordinate
    /// advances; the bid stays open) and the concrete fill row.
    pub fn to_db_collection_bid_and_filled_collection_bid(
        &self,
        marketplace_addr: String,
        tx_version: i64,
        event_idx: i64,
    ) -> (r: Result<(CollectionBid, FilledCollectionBid, Activity), DecodeError>)
        ensures
            r is Ok <==> spec_parses(self.price@) && spec_parses(self.timestamp@),
            r is Ok ==> ({
                let b = r->Ok_0.0;
                let f = r->Ok_0.1;
                let a = r->Ok_0.2;
                &&& b.bid_obj_addr@ == spec_standardize_address(self.bid.inner@)
                &&& b.collection_addr@ == Seq::<char>::empty()
                &&& b.collection_creator_addr@ == Seq::<char>::empty()
                &&& b.collection_name@ == Seq::<char>::empty()
                &&& b.nft_standard == 2
                &&& b.marketplace_addr@ == marketplace_addr@
                &&& b.buyer_addr@ == spec_standardize_address(self.bid_buyer@)
                &&& b.total_nft_amount == 0
                &&& b.price == spec_decimal_value(self.price@)
                &&& b.payment_token@ == "0x1::aptos_coin::AptosCoin"@
                &&& b.payment_token_type == 1
                &&& b.order_placed_timestamp == 0
                &&& b.order_placed_tx_version == 0
                &&& b.order_placed_event_idx == 0
                &&& b.latest_order_filled_timestamp == spec_decimal_value(self.timestamp@)
                &&& b.latest_order_filled_tx_version == tx_version
                &&& b.latest_order_filled_event_idx == event_idx
                &&& b.order_cancelled_timestamp == 0
                &&& b.order_cancelled_tx_version == 0
                &&& b.order_cancelled_event_idx == 0
                &&& b.order_status == 1
                &&& b.order_expiration_timestamp == 0
                &&& f.bid_obj_addr@ == spec_standardize_address(self.bid.inner@)
                &&& f.nft_id@ == self.token.inner@
                &&& f.nft_name@ == Seq::<char>::empty()
                &&& f.seller_addr@ == spec_standardize_address(self.bid_seller@)
                &&& f.price == spec_decimal_value(self.price@)
                &&& f.royalties == 0
                &&& f.commission == 0
                &&& f.order_filled_timestamp == spec_decimal_value(self.timestamp@)
                &&& f.order_filled_tx_version == tx_version
                &&& f.order_filled_event_idx == event_idx
                &&& a.nft_id@ == f.nft_id@
                &&& a.nft_name@ == f.nft_name@
                &&& a.collection_addr@ == b.collection_addr@
                &&& a.collection_creator_addr@ == b.collection_creator_addr@
                &&& a.collection_name@ == b.collection_name@
                &&& a.nft_standard == b.nft_standard
                &&& a.marketplace_addr@ == b.marketplace_addr@
                &&& a.buyer_addr@ == b.buyer_addr@
                &&& a.seller_addr@ == f.seller_addr@
                &&& a.price == f.price
                &&& a.royalties == 0
                &&& a.commission == 0
                &&& a.activity_timestamp == f.order_filled_timestamp
                &&& a.activity_tx_version == tx_version
                &&& a.activity_event_idx == event_idx
                &&& a.activity_type == 2
            }),
    {
        let price = match parse_i64(self.price.as_str()) {
            Some(p) => p,
            None => {
                return Err(fail("AcceptCollectionBidEvent: invalid price"));
            },
        };
        let timestamp = match parse_i64(self.timestamp.as_str()) {
            Some(p) => p,
            None => {
                return Err(fail("AcceptCollectionBidEvent: invalid timestamp"));
            },
        };
        let bid = CollectionBid {
            bid_obj_addr: standardize_address(self.bid.inner.as_str()),
            collection_addr: String::new(),
            collection_creator_addr: String::new(),
            collection_name: String::new(),
            nft_standard: 2,
            marketplace_addr,
            buyer_addr: standardize_address(self.bid_buyer.as_str()),
            total_nft_amount: 0,
            price,
            payment_token: apt_coin(),
            payment_token_type: PaymentTokenType::Coin.to_i32(),
            order_placed_timestamp: 0,
            order_placed_tx_version: 0,
            order_placed_event_idx: 0,
            latest_order_filled_timestamp: timestamp,
            latest_order_filled_tx_version: tx_version,
            latest_order_filled_event_idx: event_idx,
            order_cancelled_timestamp: 0,
            order_cancelled_tx_version: 0,
            order_cancelled_event_idx: 0,
            order_status: OrderStatus::Open.to_i32(),
            order_expiration_timestamp: 0,
        };
        let fill = FilledCollectionBid {
            bid_obj_addr: standardize_address(self.bid.inner.as_str()),
            nft_id: self.token.inner.clone(),
            nft_name: String::new(),
            seller_addr: standardize_address(self.bid_seller.as_str()),
            price,
            royalties: 0,
            commission: 0,
            order_filled_timestamp: timestamp,
            order_filled_tx_version: tx_version,
            order_filled_event_idx: event_idx,
        };
        let act = filled_collection_bid_activity(
            &bid,
            &fill,
            ActivityType::CollectionBidFilled.to_i32(),
            timestamp,
            tx_version,
            event_idx,
        );
        Ok((bid, fill, act))
    }
}

impl TradeportV2CollectionBidCancelledEventOnChain {
    /// The collection-bid row this event creates: cancelled, with only
    /// the cancelled phase set, keyed by the bid object's address.
    pub fn to_db_collection_bid(&self, marketplace_addr: String, tx_version: i64, event_idx: i64) -> (r: Result<(CollectionBid, Activity), DecodeError>)
        ensures
            r is Ok <==> spec_parses(self.price@) && spec_parses(self.timestamp@),
            r is Ok ==> ({
                let b = r->Ok_0.0;
                let a = r->Ok_0.1;
                &&& b.bid_obj_addr@ == spec_standardize_address(self.bid.inner@)
                &&& b.collection_addr@ == Seq::<char>::empty()
                &&& b.collection_creator_addr@ == Seq::<char>::empty()
                &&& b.collection_name@ == Seq::<char>::empty()
                &&& b.nft_standard == 2
                &&& b.marketplace_addr@ == marketplace_addr@
                &&& b.buyer_addr@ == spec_standardize_address(self.bid_buyer@)
                &&& b.total_nft_amount == 0
                &&& b.price == spec_decimal_value(self.price@)
                &&& b.payment_token@ == "0x1::aptos_coin::AptosCoin"@
                &&& b.payment_token_type == 1
                &&& b.order_placed_timestamp == 0
                &&& b.order_placed_tx_version == 0
                &&& b.order_placed_event_idx == 0
                &&& b.latest_order_filled_timestamp == 0
                &&& b.latest_order_filled_tx_version == 0
                &&& b.latest_order_filled_event_idx == 0
                &&& b.order_cancelled_timestamp == spec_decimal_value(self.timestamp@)
                &&& b.order_cancelled_tx_version == tx_version
                &&& b.order_cancelled_event_idx == event_idx
                &&& b.order_status == 3
                &&& b.order_expiration_timestamp == 0
                &&& a.nft_id@ == Seq::<char>::empty()
                &&& a.nft_name@ == Seq::<char>::empty()
                &&& a.collection_addr@ == b.collection_addr@
                &&& a.collection_creator_addr@ == b.collection_creator_addr@
                &&& a.collection_name@ == b.collection_name@
                &&& a.nft_standard == b.nft_standard
                &&& a.marketplace_addr@ == b.marketplace_addr@
                &&& a.buyer_addr@ == b.buyer_addr@
                &&& a.seller_addr@ == Seq::<char>::empty()
                &&& a.price == b.price
                &&& a.royalties == 0
                &&& a.commission == 0
                &&& a.activity_timestamp == b.order_cancelled_timestamp
                &&& a.activity_tx_version == tx_version
                &&& a.activity_event_idx == event_idx
                &&& a.activity_type == 3
            }),
    {
        let price = match parse_i64(self.price.as_str()) {
            Some(p) => p,
            None => {
                return Err(fail("DeleteCollectionBidEvent: invalid price"));
            },
        };
        let timestamp = match parse_i64(self.timestamp.as_str()) {
            Some(p) => p,
            None => {
                return Err(fail("DeleteCollectionBidEvent: invalid timestamp"));
            },
        };
        let bid = CollectionBid {
            bid_obj_addr: standardize_address(self.bid.inner.as_str()),
            collection_addr: String::new(),
            collection_creator_addr: String::new(),
            collection_name: String::new(),
            nft_standard: 2,
            marketplace_addr,
            buyer_addr: standardize_address(self.bid_buyer.as_str()),
            total_nft_amount: 0,
            price,
            payment_token: apt_coin(),
            payment_token_type: PaymentTokenType::Coin.to_i32(),
            order_placed_timestamp: 0,
            order_placed_tx_version: 0,
            order_placed_event_idx: 0,
            latest_order_filled_timestamp: 0,
            latest_order_filled_tx_version: 0,
            latest_order_filled_event_idx: 0,
            order_cancelled_timestamp: timestamp,
            order_cancelled_tx_version: tx_version,
            order_cancelled_event_idx: event_idx,
            order_status: OrderStatus::Cancelled.to_i32(),
            order_expiration_timestamp: 0,
        };
        let act = collection_bid_activity(
            &bid,
            ActivityType::CollectionBidCancelled.to_i32(),
            timestamp,
            tx_version,
            event_idx,
        );
        Ok((bid, act))
    }
}

} // verus!
