//! Events of the Aptos-labs marketplace contract family.
//!
//! These events carry no on-chain timestamp, so lifecycle timestamps come
//! from the wall clock at decode time; the event coordinate alone orders
//! the rows.

use vstd::prelude::*;
use vstd::string::StringExecFns;

use crate::address::{spec_standardize_address, standardize_address};
use crate::aptos_utils::{
    apt_coin, get_unix_timestamp_in_secs, ActivityType, AskOrderType, OrderStatus, PaymentTokenType,
};
use crate::decode::{parse_i64, spec_decimal_value, spec_parses, DecodeError};
use crate::metadata::{CollectionMetadataOnChain, TokenMetadataOnChain};
use crate::models::{Activity, CollectionBid, FilledCollectionBid, NftAsk, NftBid};
use crate::onchain_events::activity::{
    ask_activity, bid_activity, collection_bid_activity, filled_collection_bid_activity,
};
use crate::text::str_eq;

verus! {

fn fail(msg: &str) -> (r: DecodeError) {
    DecodeError { message: String::from_str(msg) }
}

/// Maps the on-chain order type string to the stored order type.
pub fn convert_on_chain_order_type_to_db_order_type(order_type: &str) -> (r: Option<AskOrderType>)
    ensures
        r is Some <==> order_type@ == "fixed price"@ || order_type@ == "auction"@,
        order_type@ == "fixed price"@ ==> r == Some(AskOrderType::FixedPrice),
        order_type@ == "auction"@ ==> r == Some(AskOrderType::Auction),
{
    proof {
        reveal_strlit("fixed price");
        reveal_strlit("auction");
        assert("fixed price"@.len() == 11);
        assert("auction"@.len() == 7);
    }
    if str_eq(order_type, "fixed price") {
        Some(AskOrderType::FixedPrice)
    } else if str_eq(order_type, "auction") {
        Some(AskOrderType::Auction)
    } else {
        None
    }
}

/// Whether the on-chain order type string is one of the two known kinds.
pub open spec fn spec_order_type_valid(s: Seq<char>) -> bool {
    s == "fixed price"@ || s == "auction"@
}

/// The stored order type for a valid on-chain order type string.
pub open spec fn spec_order_type_value(s: Seq<char>) -> i32 {
    if s == "fixed price"@ {
        1
    } else {
        2
    }
}

/// `TokenOfferPlaced`: a bid on one NFT was placed.
pub struct BidPlacedEventOnChain {
    pub token_offer: String,
    pub purchaser: String,
    pub price: String,
    pub token_metadata: TokenMetadataOnChain,
}

/// `TokenOfferFilled`: a bid on one NFT was accepted.
pub struct BidFilledEventOnChain {
    pub token_offer: String,
    pub purchaser: String,
    pub seller: String,
    pub price: String,
    pub royalties: String,
    pub commission: String,
    pub token_metadata: TokenMetadataOnChain,
}

/// `TokenOfferCancelled`: a bid on one NFT was withdrawn.
pub struct BidCancelledEventOnChain {
    pub token_offer: String,
    pub purchaser: String,
    pub price: String,
    pub token_metadata: TokenMetadataOnChain,
}

impl BidPlacedEventOnChain {
    /// The bid row this event creates: open, with only the placed phase
    /// set.
    pub fn to_db_nft_bid(&self, marketplace_addr: String, tx_version: i64, event_idx: i64) -> (r:
        Result<(NftBid, Activity), DecodeError>)
        ensures
            r is Ok <==> self.token_metadata.wf() && spec_parses(self.price@),
            r is Ok ==> ({
                let b = r->Ok_0.0;
                let a = r->Ok_0.1;
                &&& b.bid_obj_addr@ == spec_standardize_address(self.token_offer@)
                &&& b.nft_id@ == if self.token_metadata.spec_is_v1() {
                    self.token_metadata.property_version.vec@[0]@
                } else {
                    spec_standardize_address(self.token_metadata.token.vec@[0].inner@)
                }
                &&& b.nft_name@ == self.token_metadata.token_name@
                &&& b.collection_addr@ == if self.token_metadata.collection.vec@.len() == 0 {
                    Seq::<char>::empty()
                } else {
                    spec_standardize_address(self.token_metadata.collection.vec@[0].inner@)
                }
                &&& b.collection_creator_addr@ == spec_standardize_address(
                    self.token_metadata.creator_address@,
                )
                &&& b.collection_name@ == self.token_metadata.collection_name@
                &&& b.nft_standard == if self.token_metadata.spec_is_v1() {
                    1int
                } else {
                    2int
                }
                &&& b.marketplace_addr@ == marketplace_addr@
                &&& b.buyer_addr@ == spec_standardize_address(self.purchaser@)
                &&& b.seller_addr@ == Seq::<char>::empty()
                &&& b.price == spec_decimal_value(self.price@)
                &&& b.royalties == 0
                &&& b.commission == 0
                &&& b.payment_token@ == "0x1::aptos_coin::AptosCoin"@
                &&& b.payment_token_type == 1
                &&& b.order_placed_timestamp >= 0
                &&& b.order_placed_tx_version == tx_version
                &&& b.order_placed_event_idx == event_idx
                &&& b.order_filled_timestamp == 0
                &&& b.order_filled_tx_version == 0
                &&& b.order_filled_event_idx == 0
                &&& b.order_cancelled_timestamp == 0
                &&& b.order_cancelled_tx_version == 0
                &&& b.order_cancelled_event_idx == 0
                &&& b.order_status == 1
                &&& b.order_expiration_timestamp == 0
                &&& a.nft_id@ == b.nft_id@
                &&& a.nft_name@ == b.nft_name@
                &&& a.collection_addr@ == b.collection_addr@
                &&& a.collection_creator_addr@ == b.collection_creator_addr@
                &&& a.collection_name@ == b.collection_name@
                &&& a.nft_standard == b.nft_standard
                &&& a.marketplace_addr@ == b.marketplace_addr@
                &&& a.buyer_addr@ == b.buyer_addr@
                &&& a.seller_addr@ == b.seller_addr@
                &&& a.price == b.price
                &&& a.royalties == 0
                &&& a.commission == 0
                &&& a.activity_timestamp == b.order_placed_timestamp
                &&& a.activity_tx_version == tx_version
                &&& a.activity_event_idx == event_idx
                &&& a.activity_type == 4
            }),
    {
        if !self.token_metadata.well_formed() {
            return Err(fail("TokenOfferPlaced: token metadata is incomplete"));
        }
        let price = match parse_i64(self.price.as_str()) {
            Some(p) => p,
            None => {
                return Err(fail("TokenOfferPlaced: invalid price"));
            },
        };
        let bid = NftBid {
            bid_obj_addr: standardize_address(self.token_offer.as_str()),
            nft_id: self.token_metadata.get_id(),
            nft_name: self.token_metadata.token_name.clone(),
            collection_addr: self.token_metadata.get_collection_addr(),
            collection_creator_addr: standardize_address(self.token_metadata.creator_address.as_str()),
            collection_name: self.token_metadata.collection_name.clone(),
            nft_standard: self.token_metadata.get_nft_standard(),
            marketplace_addr,
            buyer_addr: standardize_address(self.purchaser.as_str()),
            seller_addr: String::new(),
            price,
            royalties: 0,
            commission: 0,
            payment_token: apt_coin(),
            payment_token_type: PaymentTokenType::Coin.to_i32(),
            order_placed_timestamp: get_unix_timestamp_in_secs(),
            order_placed_tx_version: tx_version,
            order_placed_event_idx: event_idx,
            order_filled_timestamp: 0,
            order_filled_tx_version: 0,
            order_filled_event_idx: 0,
            order_cancelled_timestamp: 0,
            order_cancelled_tx_version: 0,
            order_cancelled_event_idx: 0,
            order_status: OrderStatus::Open.to_i32(),
            order_expiration_timestamp: 0,
        };
        let act = bid_activity(
            &bid,
            ActivityType::NFTBidPlaced.to_i32(),
            bid.order_placed_timestamp,
            tx_version,
            event_idx,
        );
        Ok((bid, act))
    }
}

impl BidFilledEventOnChain {
    /// The bid row this event creates: filled, with only the filled phase
    /// set.
    pub fn to_db_nft_bid(&self, marketplace_addr: String, tx_version: i64, event_idx: i64) -> (r:
        Result<(NftBid, Activity), DecodeError>)
        ensures
            r is Ok <==> self.token_metadata.wf() && spec_parses(self.price@) && spec_parses(
                self.royalties@,
            ) && spec_parses(self.commission@),
            r is Ok ==> ({
                let b = r->Ok_0.0;
                let a = r->Ok_0.1;
                &&& b.bid_obj_addr@ == spec_standardize_address(self.token_offer@)
                &&& b.nft_id@ == if self.token_metadata.spec_is_v1() {
                    self.token_metadata.property_version.vec@[0]@
                } else {
                    spec_standardize_address(self.token_metadata.token.vec@[0].inner@)
                }
                &&& b.nft_name@ == self.token_metadata.token_name@
                &&& b.collection_addr@ == if self.token_metadata.collection.vec@.len() == 0 {
                    Seq::<char>::empty()
                } else {
                    spec_standardize_address(self.token_metadata.collection.vec@[0].inner@)
                }
                &&& b.collection_creator_addr@ == spec_standardize_address(
                    self.token_metadata.creator_address@,
                )
                &&& b.collection_name@ == self.token_metadata.collection_name@
                &&& b.nft_standard == if self.token_metadata.spec_is_v1() {
                    1int
                } else {
                    2int
                }
                &&& b.marketplace_addr@ == marketplace_addr@
                &&& b.buyer_addr@ == spec_standardize_address(self.purchaser@)
                &&& b.seller_addr@ == spec_standardize_address(self.seller@)
                &&& b.price == spec_decimal_value(self.price@)
                &&& b.royalties == spec_decimal_value(self.royalties@)
                &&& b.commission == spec_decimal_value(self.commission@)
                &&& b.payment_token@ == "0x1::aptos_coin::AptosCoin"@
                &&& b.payment_token_type == 1
                &&& b.order_placed_timestamp == 0
                &&& b.order_placed_tx_version == 0
                &&& b.order_placed_event_idx == 0
                &&& b.order_filled_timestamp >= 0
                &&& b.order_filled_tx_version == tx_version
                &&& b.order_filled_event_idx == event_idx
                &&& b.order_cancelled_timestamp == 0
                &&& b.order_cancelled_tx_version == 0
                &&& b.order_cancelled_event_idx == 0
                &&& b.order_status == 2
                &&& b.order_expiration_timestamp == 0
                &&& a.nft_id@ == b.nft_id@
                &&& a.nft_name@ == b.nft_name@
                &&& a.collection_addr@ == b.collection_addr@
                &&& a.collection_creator_addr@ == b.collection_creator_addr@
                &&& a.collection_name@ == b.collection_name@
                &&& a.nft_standard == b.nft_standard
                &&& a.marketplace_addr@ == b.marketplace_addr@
                &&& a.buyer_addr@ == b.buyer_addr@
                &&& a.seller_addr@ == b.seller_addr@
                &&& a.price == b.price
                &&& a.royalties == b.royalties
                &&& a.commission == b.commission
                &&& a.activity_timestamp == b.order_filled_timestamp
                &&& a.activity_tx_version == tx_version
                &&& a.activity_event_idx == event_idx
                &&& a.activity_type == 5
            }),
    {
        if !self.token_metadata.well_formed() {
            return Err(fail("TokenOfferFilled: token metadata is incomplete"));
        }
        let price = match parse_i64(self.price.as_str()) {
            Some(p) => p,
            None => {
                return Err(fail("TokenOfferFilled: invalid price"));
            },
        };
        let royalties = match parse_i64(self.royalties.as_str()) {
            Some(p) => p,
            None => {
                return Err(fail("TokenOfferFilled: invalid royalties"));
            },
        };
        let commission = match parse_i64(self.commission.as_str()) {
            Some(p) => p,
            None => {
                return Err(fail("TokenOfferFilled: invalid commission"));
            },
        };
        let bid = NftBid {
            bid_obj_addr: standardize_address(self.token_offer.as_str()),
            nft_id: self.token_metadata.get_id(),
            nft_name: self.token_metadata.token_name.clone(),
            collection_addr: self.token_metadata.get_collection_addr(),
            collection_creator_addr: standardize_address(self.token_metadata.creator_address.as_str()),
            collection_name: self.token_metadata.collection_name.clone(),
            nft_standard: self.token_metadata.get_nft_standard(),
            marketplace_addr,
            buyer_addr: standardize_address(self.purchaser.as_str()),
            seller_addr: standardize_address(self.seller.as_str()),
            price,
            royalties,
            commission,
            payment_token: apt_coin(),
            payment_token_type: PaymentTokenType::Coin.to_i32(),
            order_placed_timestamp: 0,
            order_placed_tx_version: 0,
            order_placed_event_idx: 0,
            order_filled_timestamp: get_unix_timestamp_in_secs(),
            order_filled_tx_version: tx_version,
            order_filled_event_idx: event_idx,
            order_cancelled_timestamp: 0,
            order_cancelled_tx_version: 0,
            order_cancelled_event_idx: 0,
            order_status: OrderStatus::Filled.to_i32(),
            order_expiration_timestamp: 0,
        };
        let act = bid_activity(
            &bid,
            ActivityType::NFTBidFilled.to_i32(),
            bid.order_filled_timestamp,
            tx_version,
            event_idx,
        );
        Ok((bid, act))
    }
}

impl BidCancelledEventOnChain {
    /// The bid row this event creates: cancelled, with only the cancelled
    /// phase set.
    pub fn to_db_nft_bid(&self, marketplace_addr: String, tx_version: i64, event_idx: i64) -> (r:
        Result<(NftBid, Activity), DecodeError>)
        ensures
            r is Ok <==> self.token_metadata.wf() && spec_parses(self.price@),
            r is Ok ==> ({
                let b = r->Ok_0.0;
                let a = r->Ok_0.1;
                &&& b.bid_obj_addr@ == spec_standardize_address(self.token_offer@)
                &&& b.nft_id@ == if self.token_metadata.spec_is_v1() {
                    self.token_metadata.property_version.vec@[0]@
                } else {
                    spec_standardize_address(self.token_metadata.token.vec@[0].inner@)
                }
                &&& b.nft_name@ == self.token_metadata.token_name@
                &&& b.collection_addr@ == if self.token_metadata.collection.vec@.len() == 0 {
                    Seq::<char>::empty()
                } else {
                    spec_standardize_address(self.token_metadata.collection.vec@[0].inner@)
                }
                &&& b.collection_creator_addr@ == spec_standardize_address(
                    self.token_metadata.creator_address@,
                )
                &&& b.collection_name@ == self.token_metadata.collection_name@
                &&& b.nft_standard == if self.token_metadata.spec_is_v1() {
                    1int
                } else {
                    2int
                }
                &&& b.marketplace_addr@ == marketplace_addr@
                &&& b.buyer_addr@ == spec_standardize_address(self.purchaser@)
                &&& b.seller_addr@ == Seq::<char>::empty()
                &&& b.price == spec_decimal_value(self.price@)
                &&& b.royalties == 0
                &&& b.commission == 0
                &&& b.payment_token@ == "0x1::aptos_coin::AptosCoin"@
                &&& b.payment_token_type == 1
                &&& b.order_placed_timestamp == 0
                &&& b.order_placed_tx_version == 0
                &&& b.order_placed_event_idx == 0
                &&& b.order_filled_timestamp == 0
                &&& b.order_filled_tx_version == 0
                &&& b.order_filled_event_idx == 0
                &&& b.order_cancelled_timestamp >= 0
                &&& b.order_cancelled_tx_version == tx_version
                &&& b.order_cancelled_event_idx == event_idx
                &&& b.order_status == 3
                &&& b.order_expiration_timestamp == 0
                &&& a.nft_id@ == b.nft_id@
                &&& a.nft_name@ == b.nft_name@
                &&& a.collection_addr@ == b.collection_addr@
                &&& a.collection_creator_addr@ == b.collection_creator_addr@
                &&& a.collection_name@ == b.collection_name@
                &&& a.nft_standard == b.nft_standard
                &&& a.marketplace_addr@ == b.marketplace_addr@
                &&& a.buyer_addr@ == b.buyer_addr@
                &&& a.seller_addr@ == b.seller_addr@
                &&& a.price == b.price
                &&& a.royalties == 0
                &&& a.commission == 0
                &&& a.activity_timestamp == b.order_cancelled_timestamp
                &&& a.activity_tx_version == tx_version
                &&& a.activity_event_idx == event_idx
                &&& a.activity_type == 6
            }),
    {
        if !self.token_metadata.well_formed() {
            return Err(fail("TokenOfferCancelled: token metadata is incomplete"));
        }
        let price = match parse_i64(self.price.as_str()) {
            Some(p) => p,
            None => {
                return Err(fail("TokenOfferCancelled: invalid price"));
            },
        };
        let bid = NftBid {
            bid_obj_addr: standardize_address(self.token_offer.as_str()),
            nft_id: self.token_metadata.get_id(),
            nft_name: self.token_metadata.token_name.clone(),
            collection_addr: self.token_metadata.get_collection_addr(),
            collection_creator_addr: standardize_address(self.token_metadata.creator_address.as_str()),
            collection_name: self.token_metadata.collection_name.clone(),
            nft_standard: self.token_metadata.get_nft_standard(),
            marketplace_addr,
            buyer_addr: standardize_address(self.purchaser.as_str()),
            seller_addr: String::new(),
            price,
            royalties: 0,
            commission: 0,
            payment_token: apt_coin(),
            payment_token_type: PaymentTokenType::Coin.to_i32(),
            order_placed_timestamp: 0,
            order_placed_tx_version: 0,
            order_placed_event_idx: 0,
            order_filled_timestamp: 0,
            order_filled_tx_version: 0,
            order_filled_event_idx: 0,
            order_cancelled_timestamp: get_unix_timestamp_in_secs(),
            order_cancelled_tx_version: tx_version,
            order_cancelled_event_idx: event_idx,
            order_status: OrderStatus::Cancelled.to_i32(),
            order_expiration_timestamp: 0,
        };
        let act = bid_activity(
            &bid,
            ActivityType::NFTBidCancelled.to_i32(),
            bid.order_cancelled_timestamp,
            tx_version,
            event_idx,
        );
        Ok((bid, act))
    }
}

/// `ListingPlaced`: an NFT was listed for sale.
pub struct AskPlacedEventOnChain {
    pub order_type: String,
    pub listing: String,
    pub seller: String,
    pub price: String,
    pub token_metadata: TokenMetadataOnChain,
}

/// `ListingFilled`: a listing was bought.
pub struct AskFilledEventOnChain {
    pub order_type: String,
    pub listing: String,
    pub seller: String,
    pub purchaser: String,
    pub price: String,
    pub commission: String,
    pub royalties: String,
    pub token_metadata: TokenMetadataOnChain,
}

/// `ListingCancelled`: a listing was withdrawn.
pub struct AskCancelledEventOnChain {
    pub order_type: String,
    pub listing: String,
    pub seller: String,
    pub price: String,
    pub token_metadata: TokenMetadataOnChain,
}

impl AskPlacedEventOnChain {
    /// The ask row this event creates: open, with only the placed phase
    /// set.
    pub fn to_db_nft_ask(&self, marketplace_addr: String, tx_version: i64, event_idx: i64) -> (r:
        Result<(NftAsk, Activity), DecodeError>)
        ensures
            r is Ok <==> self.token_metadata.wf() && spec_parses(self.price@)
                && spec_order_type_valid(self.order_type@),
            r is Ok ==> ({
                let b = r->Ok_0.0;
                let a = r->Ok_0.1;
                &&& b.ask_obj_addr@ == spec_standardize_address(self.listing@)
                &&& b.nft_id@ == if self.token_metadata.spec_is_v1() {
                    self.token_metadata.property_version.vec@[0]@
                } else {
                    spec_standardize_address(self.token_metadata.token.vec@[0].inner@)
                }
                &&& b.nft_name@ == self.token_metadata.token_name@
                &&& b.collection_addr@ == if self.token_metadata.collection.vec@.len() == 0 {
                    Seq::<char>::empty()
                } else {
                    spec_standardize_address(self.token_metadata.collection.vec@[0].inner@)
                }
                &&& b.collection_creator_addr@ == spec_standardize_address(
                    self.token_metadata.creator_address@,
                )
                &&& b.collection_name@ == self.token_metadata.collection_name@
                &&& b.nft_standard == if self.token_metadata.spec_is_v1() {
                    1int
                } else {
                    2int
                }
                &&& b.marketplace_addr@ == marketplace_addr@
                &&& b.buyer_addr@ == Seq::<char>::empty()
                &&& b.seller_addr@ == spec_standardize_address(self.seller@)
                &&& b.price == spec_decimal_value(self.price@)
                &&& b.royalties == 0
                &&& b.commission == 0
                &&& b.payment_token@ == "0x1::aptos_coin::AptosCoin"@
                &&& b.payment_token_type == 1
                &&& b.order_placed_timestamp >= 0
                &&& b.order_placed_tx_version == tx_version
                &&& b.order_placed_event_idx == event_idx
                &&& b.order_filled_timestamp == 0
                &&& b.order_filled_tx_version == 0
                &&& b.order_filled_event_idx == 0
                &&& b.order_cancelled_timestamp == 0
                &&& b.order_cancelled_tx_version == 0
                &&& b.order_cancelled_event_idx == 0
                &&& b.order_status == 1
                &&& b.order_type == spec_order_type_value(self.order_type@)
                &&& a.nft_id@ == b.nft_id@
                &&& a.nft_name@ == b.nft_name@
                &&& a.collection_addr@ == b.collection_addr@
                &&& a.collection_creator_addr@ == b.collection_creator_addr@
                &&& a.collection_name@ == b.collection_name@
                &&& a.nft_standard == b.nft_standard
                &&& a.marketplace_addr@ == b.marketplace_addr@
                &&& a.buyer_addr@ == b.buyer_addr@
                &&& a.seller_addr@ == b.seller_addr@
                &&& a.price == b.price
                &&& a.royalties == 0
                &&& a.commission == 0
                &&& a.activity_timestamp == b.order_placed_timestamp
                &&& a.activity_tx_version == tx_version
                &&& a.activity_event_idx == event_idx
                &&& a.activity_type == 7
            }),
    {
        if !self.token_metadata.well_formed() {
            return Err(fail("ListingPlaced: token metadata is incomplete"));
        }
        let price = match parse_i64(self.price.as_str()) {
            Some(p) => p,
            None => {
                return Err(fail("ListingPlaced: invalid price"));
            },
        };
        let order_type = match convert_on_chain_order_type_to_db_order_type(
            self.order_type.as_str(),
        ) {
            Some(t) => t,
            None => {
                return Err(fail("ListingPlaced: invalid ask order type"));
            },
        };
        let ask = NftAsk {
            ask_obj_addr: standardize_address(self.listing.as_str()),
            nft_id: self.token_metadata.get_id(),
            nft_name: self.token_metadata.token_name.clone(),
            collection_addr: self.token_metadata.get_collection_addr(),
            collection_creator_addr: standardize_address(self.token_metadata.creator_address.as_str()),
            collection_name: self.token_metadata.collection_name.clone(),
            nft_standard: self.token_metadata.get_nft_standard(),
            marketplace_addr,
            buyer_addr: String::new(),
            seller_addr: standardize_address(self.seller.as_str()),
            price,
            royalties: 0,
            commission: 0,
            payment_token: apt_coin(),
            payment_token_type: PaymentTokenType::Coin.to_i32(),
            order_placed_timestamp: get_unix_timestamp_in_secs(),
            order_placed_tx_version: tx_version,
            order_placed_event_idx: event_idx,
            order_filled_timestamp: 0,
            order_filled_tx_version: 0,
            order_filled_event_idx: 0,
            order_cancelled_timestamp: 0,
            order_cancelled_tx_version: 0,
            order_cancelled_event_idx: 0,
            order_status: OrderStatus::Open.to_i32(),
            order_type: order_type.to_i32(),
        };
        let act = ask_activity(
            &ask,
            ActivityType::NFTAskPlaced.to_i32(),
            ask.order_placed_timestamp,
            tx_version,
            event_idx,
        );
        Ok((ask, act))
    }
}

impl AskFilledEventOnChain {
    /// The ask row this event creates: filled, with only the filled phase
    /// set; the NFT identity stays empty, the placed row already has it.
    pub fn to_db_nft_ask(&self, marketplace_addr: String, tx_version: i64, event_idx: i64) -> (r:
        Result<(NftAsk, Activity), DecodeError>)
        ensures
            r is Ok <==> spec_parses(self.price@) && spec_parses(self.royalties@) && spec_parses(
                self.commission@,
            ) && spec_order_type_valid(self.order_type@),
            r is Ok ==> ({
                let b = r->Ok_0.0;
                let a = r->Ok_0.1;
                &&& b.ask_obj_addr@ == spec_standardize_address(self.listing@)
                &&& b.nft_id@ == Seq::<char>::empty()
                &&& b.nft_name@ == Seq::<char>::empty()
                &&& b.collection_addr@ == Seq::<char>::empty()
                &&& b.collection_creator_addr@ == Seq::<char>::empty()
                &&& b.collection_name@ == Seq::<char>::empty()
                &&& b.nft_standard == 1
                &&& b.marketplace_addr@ == marketplace_addr@
                &&& b.buyer_addr@ == spec_standardize_address(self.purchaser@)
                &&& b.seller_addr@ == spec_standardize_address(self.seller@)
                &&& b.price == spec_decimal_value(self.price@)
                &&& b.royalties == spec_decimal_value(self.royalties@)
                &&& b.commission == spec_decimal_value(self.commission@)
                &&& b.payment_token@ == "0x1::aptos_coin::AptosCoin"@
                &&& b.payment_token_type == 1
                &&& b.order_placed_timestamp == 0
                &&& b.order_placed_tx_version == 0
                &&& b.order_placed_event_idx == 0
                &&& b.order_filled_timestamp >= 0
                &&& b.order_filled_tx_version == tx_version
                &&& b.order_filled_event_idx == event_idx
                &&& b.order_cancelled_timestamp == 0
                &&& b.order_cancelled_tx_version == 0
                &&& b.order_cancelled_event_idx == 0
                &&& b.order_status == 2
                &&& b.order_type == spec_order_type_value(self.order_type@)
                &&& a.nft_id@ == b.nft_id@
                &&& a.nft_name@ == b.nft_name@
                &&& a.collection_addr@ == b.collection_addr@
                &&& a.collection_creator_addr@ == b.collection_creator_addr@
                &&& a.collection_name@ == b.collection_name@
                &&& a.nft_standard == b.nft_standard
                &&& a.marketplace_addr@ == b.marketplace_addr@
                &&& a.buyer_addr@ == b.buyer_addr@
                &&& a.seller_addr@ == b.seller_addr@
                &&& a.price == b.price
                &&& a.royalties == b.royalties
                &&& a.commission == b.commission
                &&& a.activity_timestamp == b.order_filled_timestamp
                &&& a.activity_tx_version == tx_version
                &&& a.activity_event_idx == event_idx
                &&& a.activity_type == 8
            }),
    {
        let price = match parse_i64(self.price.as_str()) {
            Some(p) => p,
            None => {
                return Err(fail("ListingFilled: invalid price"));
            },
        };
        let royalties = match parse_i64(self.royalties.as_str()) {
            Some(p) => p,
            None => {
                return Err(fail("ListingFilled: invalid royalties"));
            },
        };
        let commission = match parse_i64(self.commission.as_str()) {
            Some(p) => p,
            None => {
                return Err(fail("ListingFilled: invalid commission"));
            },
        };
        let order_type = match convert_on_chain_order_type_to_db_order_type(
            self.order_type.as_str(),
        ) {
            Some(t) => t,
            None => {
                return Err(fail("ListingFilled: invalid ask order type"));
            },
        };
        let ask = NftAsk {
            ask_obj_addr: standardize_address(self.listing.as_str()),
            nft_id: String::new(),
            nft_name: String::new(),
            collection_addr: String::new(),
            collection_creator_addr: String::new(),
            collection_name: String::new(),
            nft_standard: 1,
            marketplace_addr,
            buyer_addr: standardize_address(self.purchaser.as_str()),
            seller_addr: standardize_address(self.seller.as_str()),
            price,
            royalties,
            commission,
            payment_token: apt_coin(),
            payment_token_type: PaymentTokenType::Coin.to_i32(),
            order_placed_timestamp: 0,
            order_placed_tx_version: 0,
            order_placed_event_idx: 0,
            order_filled_timestamp: get_unix_timestamp_in_secs(),
            order_filled_tx_version: tx_version,
            order_filled_event_idx: event_idx,
            order_cancelled_timestamp: 0,
            order_cancelled_tx_version: 0,
            order_cancelled_event_idx: 0,
            order_status: OrderStatus::Filled.to_i32(),
            order_type: order_type.to_i32(),
        };
        let act = ask_activity(
            &ask,
            ActivityType::NFTAskFilled.to_i32(),
            ask.order_filled_timestamp,
            tx_version,
            event_idx,
        );
        Ok((ask, act))
    }
}

impl AskCancelledEventOnChain {
    /// The ask row this event creates: cancelled, with only the cancelled
    /// phase set; the NFT identity stays empty, the placed row already
    /// has it.
    pub fn to_db_nft_ask(&self, marketplace_addr: String, tx_version: i64, event_idx: i64) -> (r:
        Result<(NftAsk, Activity), DecodeError>)
        ensures
            r is Ok <==> spec_parses(self.price@) && spec_order_type_valid(self.order_type@),
            r is Ok ==> ({
                let b = r->Ok_0.0;
                let a = r->Ok_0.1;
                &&& b.ask_obj_addr@ == spec_standardize_address(self.listing@)
                &&& b.nft_id@ == Seq::<char>::empty()
                &&& b.nft_name@ == Seq::<char>::empty()
                &&& b.collection_addr@ == Seq::<char>::empty()
                &&& b.collection_creator_addr@ == Seq::<char>::empty()
                &&& b.collection_name@ == Seq::<char>::empty()
                &&& b.nft_standard == 1
                &&& b.marketplace_addr@ == marketplace_addr@
                &&& b.buyer_addr@ == Seq::<char>::empty()
                &&& b.seller_addr@ == spec_standardize_address(self.seller@)
                &&& b.price == spec_decimal_value(self.price@)
                &&& b.royalties == 0
                &&& b.commission == 0
                &&& b.payment_token@ == "0x1::aptos_coin::AptosCoin"@
                &&& b.payment_token_type == 1
                &&& b.order_placed_timestamp == 0
                &&& b.order_placed_tx_version == 0
                &&& b.order_placed_event_idx == 0
                &&& b.order_filled_timestamp == 0
                &&& b.order_filled_tx_version == 0
                &&& b.order_filled_event_idx == 0
                &&& b.order_cancelled_timestamp >= 0
                &&& b.order_cancelled_tx_version == tx_version
                &&& b.order_cancelled_event_idx == event_idx
                &&& b.order_status == 3
                &&& b.order_type == spec_order_type_value(self.order_type@)
                &&& a.nft_id@ == b.nft_id@
                &&& a.nft_name@ == b.nft_name@
                &&& a.collection_addr@ == b.collection_addr@
                &&& a.collection_creator_addr@ == b.collection_creator_addr@
                &&& a.collection_name@ == b.collection_name@
                &&& a.nft_standard == b.nft_standard
                &&& a.marketplace_addr@ == b.marketplace_addr@
                &&& a.buyer_addr@ == b.buyer_addr@
                &&& a.seller_addr@ == b.seller_addr@
                &&& a.price == b.price
                &&& a.royalties == 0
                &&& a.commission == 0
                &&& a.activity_timestamp == b.order_cancelled_timestamp
                &&& a.activity_tx_version == tx_version
                &&& a.activity_event_idx == event_idx
                &&& a.activity_type == 9
            }),
    {
        let price = match parse_i64(self.price.as_str()) {
            Some(p) => p,
            None => {
                return Err(fail("ListingCancelled: invalid price"));
            },
        };
        let order_type = match convert_on_chain_order_type_to_db_order_type(
            self.order_type.as_str(),
        ) {
            Some(t) => t,
            None => {
                return Err(fail("ListingCancelled: invalid ask order type"));
            },
        };
        let ask = NftAsk {
            ask_obj_addr: standardize_address(self.listing.as_str()),
            nft_id: String::new(),
            nft_name: String::new(),
            collection_addr: String::new(),
            collection_creator_addr: String::new(),
            collection_name: String::new(),
            nft_standard: 1,
            marketplace_addr,
            buyer_addr: String::new(),
            seller_addr: standardize_address(self.seller.as_str()),
            price,
            royalties: 0,
            commission: 0,
            payment_token: apt_coin(),
            payment_token_type: PaymentTokenType::Coin.to_i32(),
            order_placed_timestamp: 0,
            order_placed_tx_version: 0,
            order_placed_event_idx: 0,
            order_filled_timestamp: 0,
            order_filled_tx_version: 0,
            order_filled_event_idx: 0,
            order_cancelled_timestamp: get_unix_timestamp_in_secs(),
            order_cancelled_tx_version: tx_version,
            order_cancelled_event_idx: event_idx,
            order_status: OrderStatus::Cancelled.to_i32(),
            order_type: order_type.to_i32(),
        };
        let act = ask_activity(
            &ask,
            ActivityType::NFTAskCancelled.to_i32(),
            ask.order_cancelled_timestamp,
            tx_version,
            event_idx,
        );
        Ok((ask, act))
    }
}

/// `CollectionOfferPlaced`: a collection-wide bid was placed.
pub struct CollectionBidPlacedEventOnChain {
    pub collection_offer: String,
    pub purchaser: String,
    pub price: String,
    pub token_amount: String,
    pub collection_metadata: CollectionMetadataOnChain,
}

/// `CollectionOfferFilled`: one NFT was sold into a collection-wide bid.
pub struct CollectionBidFilledEventOnChain {
    pub collection_offer: String,
    pub purchaser: String,
    pub seller: String,
    pub price: String,
    pub royalties: String,
    pub commission: String,
    pub token_metadata: TokenMetadataOnChain,
}

/// `CollectionOfferCancelled`: a collection-wide bid was withdrawn.
pub struct CollectionBidCancelledEventOnChain {
    pub collection_offer: String,
    pub purchaser: String,
    pub price: String,
    pub remaining_token_amount: String,
    pub collection_metadata: CollectionMetadataOnChain,
}

impl CollectionBidPlacedEventOnChain {
    /// The collection-bid row this event creates: open, with only the
    /// placed phase set.
    pub fn to_db_collection_bid(&self, marketplace_addr: String, tx_version: i64, event_idx: i64) -> (r: Result<(CollectionBid, Activity), DecodeError>)
        ensures
            r is Ok <==> spec_parses(self.price@) && spec_parses(self.token_amount@),
            r is Ok ==> ({
                let b = r->Ok_0.0;
                let a = r->Ok_0.1;
                &&& b.bid_obj_addr@ == spec_standardize_address(self.collection_offer@)
                &&& b.collection_addr@ == if self.collection_metadata.spec_is_v1() {
                    Seq::<char>::empty()
                } else {
                    spec_standardize_address(self.collection_metadata.collection.vec@[0].inner@)
                }
                &&& b.collection_creator_addr@ == spec_standardize_address(
                    self.collection_metadata.creator_address@,
                )
                &&& b.collection_name@ == self.collection_metadata.collection_name@
                &&& b.nft_standard == if self.collection_metadata.spec_is_v1() {
                    1int
                } else {
                    2int
                }
                &&& b.marketplace_addr@ == marketplace_addr@
                &&& b.buyer_addr@ == spec_standardize_address(self.purchaser@)
                &&& b.total_nft_amount == spec_decimal_value(self.token_amount@)
                &&& b.price == spec_decimal_value(self.price@)
                &&& b.payment_token@ == "0x1::aptos_coin::AptosCoin"@
                &&& b.payment_token_type == 1
                &&& b.order_placed_timestamp >= 0
                &&& b.order_placed_tx_version == tx_version
                &&& b.order_placed_event_idx == event_idx
                &&& b.latest_order_filled_timestamp == 0
                &&& b.latest_order_filled_tx_version == 0
                &&& b.latest_order_filled_event_idx == 0
                &&& b.order_cancelled_timestamp == 0
                &&& b.order_cancelled_tx_version == 0
                &&& b.order_cancelled_event_idx == 0
                &&& b.order_status == 1
                &&& b.order_expiration_timestamp == 0
                &&& a.nft_id@ == Seq::<char>::empty()
                &&& a.nft_name@ == Seq::<char>::empty()
                &&& a.collection_addr@ == b.collection_addr@
                &&& a.collection_creator_addr@ == b.collection_creator_addr@
                &&& a.collection_name@ == b.collection_name@
                &&& a.nft_standard == b.nft_standard
                &&& a.marketplace_addr@ == b.marketplace_addr@
                &&& a.buyer_addr@ == b.buyer_addr@
                &&& a.seller_addr@ == Seq::<char>::empty()
                &&& a.price == b.price
                &&& a.royalties == 0
                &&& a.commission == 0
                &&& a.activity_timestamp == b.order_placed_timestamp
                &&& a.activity_tx_version == tx_version
                &&& a.activity_event_idx == event_idx
                &&& a.activity_type == 1
            }),
    {
        let price = match parse_i64(self.price.as_str()) {
            Some(p) => p,
            None => {
                return Err(fail("CollectionOfferPlaced: invalid price"));
            },
        };
        let token_amount = match parse_i64(self.token_amount.as_str()) {
            Some(p) => p,
            None => {
                return Err(fail("CollectionOfferPlaced: invalid token amount"));
            },
        };
        let bid = CollectionBid {
            bid_obj_addr: standardize_address(self.collection_offer.as_str()),
            collection_addr: self.collection_metadata.get_collection_addr(),
            collection_creator_addr: standardize_address(
                self.collection_metadata.creator_address.as_str(),
            ),
            collection_name: self.collection_metadata.collection_name.clone(),
            nft_standard: self.collection_metadata.get_nft_standard(),
            marketplace_addr,
            buyer_addr: standardize_address(self.purchaser.as_str()),
            total_nft_amount: token_amount,
            price,
            payment_token: apt_coin(),
            payment_token_type: PaymentTokenType::Coin.to_i32(),
            order_placed_timestamp: get_unix_timestamp_in_secs(),
            order_placed_tx_version: tx_version,
            order_placed_event_idx: event_idx,
            latest_order_filled_timestamp: 0,
            latest_order_filled_tx_version: 0,
            latest_order_filled_event_idx: 0,
            order_cancelled_timestamp: 0,
            order_cancelled_tx_version: 0,
            order_cancelled_event_idx: 0,
            order_status: OrderStatus::Open.to_i32(),
            order_expiration_timestamp: 0,
        };
        let act = collection_bid_activity(
            &bid,
            ActivityType::CollectionBidPlaced.to_i32(),
            bid.order_placed_timestamp,
            tx_version,
            event_idx,
        );
        Ok((bid, act))
    }
}

impl CollectionBidFilledEventOnChain {
    /// The parent collection-bid update (only the latest-fill coordinate
    /// advances; the bid stays open) and the concrete fill row.
    pub fn to_db_collection_bid_and_filled_collection_bid(
        &self,
        marketplace_addr: String,
        tx_version: i64,
        event_idx: i64,
    ) -> (r: Result<(CollectionBid, FilledCollectionBid, Activity), DecodeError>)
        ensures
            r is Ok <==> self.token_metadata.wf() && spec_parses(self.price@) && spec_parses(
                self.royalties@,
            ) && spec_parses(self.commission@),
            r is Ok ==> ({
                let b = r->Ok_0.0;
                let f = r->Ok_0.1;
                let a = r->Ok_0.2;
                &&& b.bid_obj_addr@ == spec_standardize_address(self.collection_offer@)
                &&& b.collection_addr@ == if self.token_metadata.collection.vec@.len() == 0 {
                    Seq::<char>::empty()
                } else {
                    spec_standardize_address(self.token_metadata.collection.vec@[0].inner@)
                }
                &&& b.collection_creator_addr@ == spec_standardize_address(
                    self.token_metadata.creator_address@,
                )
                &&& b.collection_name@ == self.token_metadata.collection_name@
                &&& b.nft_standard == if self.token_metadata.spec_is_v1() {
                    1int
                } else {
                    2int
                }
                &&& b.marketplace_addr@ == marketplace_addr@
                &&& b.buyer_addr@ == spec_standardize_address(self.purchaser@)
                &&& b.total_nft_amount == 0
                &&& b.price == spec_decimal_value(self.price@)
                &&& b.payment_token@ == "0x1::aptos_coin::AptosCoin"@
                &&& b.payment_token_type == 1
                &&& b.order_placed_timestamp == 0
                &&& b.order_placed_tx_version == 0
                &&& b.order_placed_event_idx == 0
                &&& b.latest_order_filled_timestamp >= 0
                &&& b.latest_order_filled_tx_version == tx_version
                &&& b.latest_order_filled_event_idx == event_idx
                &&& b.order_cancelled_timestamp == 0
                &&& b.order_cancelled_tx_version == 0
                &&& b.order_cancelled_event_idx == 0
                &&& b.order_status == 1
                &&& b.order_expiration_timestamp == 0
                &&& f.bid_obj_addr@ == spec_standardize_address(self.collection_offer@)
                &&& f.nft_id@ == if self.token_metadata.spec_is_v1() {
                    self.token_metadata.property_version.vec@[0]@
                } else {
                    spec_standardize_address(self.token_metadata.token.vec@[0].inner@)
                }
                &&& f.nft_name@ == self.token_metadata.token_name@
                &&& f.seller_addr@ == spec_standardize_address(self.seller@)
                &&& f.price == spec_decimal_value(self.price@)
                &&& f.royalties == spec_decimal_value(self.royalties@)
                &&& f.commission == spec_decimal_value(self.commission@)
                &&& f.order_filled_timestamp == b.latest_order_filled_timestamp
                &&& f.order_filled_tx_version == tx_version
                &&& f.order_filled_event_idx == event_idx
                &&& a.nft_id@ == f.nft_id@
                &&& a.nft_name@ == f.nft_name@
                &&& a.collection_addr@ == b.collection_addr@
                &&& a.collection_creator_addr@ == b.collection_creator_addr@
                &&& a.collection_name@ == b.collection_name@
                &&& a.nft_standard == b.nft_standard
                &&& a.marketplace_addr@ == b.marketplace_addr@
                &&& a.buyer_addr@ == b.buyer_addr@
                &&& a.seller_addr@ == f.seller_addr@
                &&& a.price == f.price
                &&& a.royalties == f.royalties
                &&& a.commission == f.commission
                &&& a.activity_timestamp == b.latest_order_filled_timestamp
                &&& a.activity_tx_version == tx_version
                &&& a.activity_event_idx == event_idx
                &&& a.activity_type == 2
            }),
    {
        if !self.token_metadata.well_formed() {
            return Err(fail("CollectionOfferFilled: token metadata is incomplete"));
        }
        let price = match parse_i64(self.price.as_str()) {
            Some(p) => p,
            None => {
                return Err(fail("CollectionOfferFilled: invalid price"));
            },
        };
        let royalties = match parse_i64(self.royalties.as_str()) {
            Some(p) => p,
            None => {
                return Err(fail("CollectionOfferFilled: invalid royalties"));
            },
        };
        let commission = match parse_i64(self.commission.as_str()) {
            Some(p) => p,
            None => {
                return Err(fail("CollectionOfferFilled: invalid commission"));
            },
        };
        let time_now = get_unix_timestamp_in_secs();
        let bid = CollectionBid {
            bid_obj_addr: standardize_address(self.collection_offer.as_str()),
            collection_addr: self.token_metadata.get_collection_addr(),
            collection_creator_addr: standardize_address(self.token_metadata.creator_address.as_str()),
            collection_name: self.token_metadata.collection_name.clone(),
            nft_standard: self.token_metadata.get_nft_standard(),
            marketplace_addr,
            buyer_addr: standardize_address(self.purchaser.as_str()),
            total_nft_amount: 0,
            price,
            payment_token: apt_coin(),
            payment_token_type: PaymentTokenType::Coin.to_i32(),
            order_placed_timestamp: 0,
            order_placed_tx_version: 0,
            order_placed_event_idx: 0,
            latest_order_filled_timestamp: time_now,
            latest_order_filled_tx_version: tx_version,
            latest_order_filled_event_idx: event_idx,
            order_cancelled_timestamp: 0,
            order_cancelled_tx_version: 0,
            order_cancelled_event_idx: 0,
            order_status: OrderStatus::Open.to_i32(),
            order_expiration_timestamp: 0,
        };
        let fill = FilledCollectionBid {
            bid_obj_addr: standardize_address(self.collection_offer.as_str()),
            nft_id: self.token_metadata.get_id(),
            nft_name: self.token_metadata.token_name.clone(),
            seller_addr: standardize_address(self.seller.as_str()),
            price,
            royalties,
            commission,
            order_filled_timestamp: time_now,
            order_filled_tx_version: tx_version,
            order_filled_event_idx: event_idx,
        };
        let act = filled_collection_bid_activity(
            &bid,
            &fill,
            ActivityType::CollectionBidFilled.to_i32(),
            time_now,
            tx_version,
            event_idx,
        );
        Ok((bid, fill, act))
    }
}

impl CollectionBidCancelledEventOnChain {
    /// The collection-bid row this event creates: cancelled, with only
    /// the cancelled phase set.
    pub fn to_db_collection_bid(&self, marketplace_addr: String, tx_version: i64, event_idx: i64) -> (r: Result<(CollectionBid, Activity), DecodeError>)
        ensures
            r is Ok <==> spec_parses(self.price@),
            r is Ok ==> ({
                let b = r->Ok_0.0;
                let a = r->Ok_0.1;
                &&& b.bid_obj_addr@ == spec_standardize_address(self.collection_offer@)
                &&& b.collection_addr@ == if self.collection_metadata.spec_is_v1() {
                    Seq::<char>::empty()
                } else {
                    spec_standardize_address(self.collection_metadata.collection.vec@[0].inner@)
                }
                &&& b.collection_creator_addr@ == spec_standardize_address(
                    self.collection_metadata.creator_address@,
                )
                &&& b.collection_name@ == self.collection_metadata.collection_name@
                &&& b.nft_standard == if self.collection_metadata.spec_is_v1() {
                    1int
                } else {
                    2int
                }
                &&& b.marketplace_addr@ == marketplace_addr@
                &&& b.buyer_addr@ == spec_standardize_address(self.purchaser@)
                &&& b.total_nft_amount == 0
                &&& b.price == spec_decimal_value(self.price@)
                &&& b.payment_token@ == "0x1::aptos_coin::AptosCoin"@
                &&& b.payment_token_type == 1
                &&& b.order_placed_timestamp == 0
                &&& b.order_placed_tx_version == 0
                &&& b.order_placed_event_idx == 0
                &&& b.latest_order_filled_timestamp == 0
                &&& b.latest_order_filled_tx_version == 0
                &&& b.latest_order_filled_event_idx == 0
                &&& b.order_cancelled_timestamp >= 0
                &&& b.order_cancelled_tx_version == tx_version
                &&& b.order_cancelled_event_idx == event_idx
                &&& b.order_status == 3
                &&& b.order_expiration_timestamp == 0
                &&& a.nft_id@ == Seq::<char>::empty()
                &&& a.nft_name@ == Seq::<char>::empty()
                &&& a.collection_addr@ == b.collection_addr@
                &&& a.collection_creator_addr@ == b.collection_creator_addr@
                &&& a.collection_name@ == b.collection_name@
                &&& a.nft_standard == b.nft_standard
                &&& a.marketplace_addr@ == b.marketplace_addr@
                &&& a.buyer_addr@ == b.buyer_addr@
                &&& a.seller_addr@ == Seq::<char>::empty()
                &&& a.price == b.price
                &&& a.royalties == 0
                &&& a.commission == 0
                &&& a.activity_timestamp == b.order_cancelled_timestamp
                &&& a.activity_tx_version == tx_version
                &&& a.activity_event_idx == event_idx
                &&& a.activity_type == 3
            }),
    {
        let price = match parse_i64(self.price.as_str()) {
            Some(p) => p,
            None => {
                return Err(fail("CollectionOfferCancelled: invalid price"));
            },
        };
        let bid = CollectionBid {
            bid_obj_addr: standardize_address(self.collection_offer.as_str()),
            collection_addr: self.collection_metadata.get_collection_addr(),
            collection_creator_addr: standardize_address(
                self.collection_metadata.creator_address.as_str(),
            ),
            collection_name: self.collection_metadata.collection_name.clone(),
            nft_standard: self.collection_metadata.get_nft_standard(),
            marketplace_addr,
            buyer_addr: standardize_address(self.purchaser.as_str()),
            total_nft_amount: 0,
            price,
            payment_token: apt_coin(),
            payment_token_type: PaymentTokenType::Coin.to_i32(),
            order_placed_timestamp: 0,
            order_placed_tx_version: 0,
            order_placed_event_idx: 0,
            latest_order_filled_timestamp: 0,
            latest_order_filled_tx_version: 0,
            latest_order_filled_event_idx: 0,
            order_cancelled_timestamp: get_unix_timestamp_in_secs(),
            order_cancelled_tx_version: tx_version,
            order_cancelled_event_idx: event_idx,
            order_status: OrderStatus::Cancelled.to_i32(),
            order_expiration_timestamp: 0,
        };
        let act = collection_bid_activity(
            &bid,
            ActivityType::CollectionBidCancelled.to_i32(),
            bid.order_cancelled_timestamp,
            tx_version,
            event_idx,
        );
        Ok((bid, act))
    }
}

} // verus!
