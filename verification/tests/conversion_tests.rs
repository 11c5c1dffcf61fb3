use nft_indexer::metadata::{MoveObject, MoveOptionObject, MoveOptionU64, TokenMetadataOnChain};
use nft_indexer::onchain_events::aptos_labs::{
    convert_on_chain_order_type_to_db_order_type, AskPlacedEventOnChain,
};
use nft_indexer::onchain_events::tradeport_v1::TradeportV1BidPlacedEventOnChain;
use nft_indexer::onchain_events::tradeport_v2::{
    TradeportV2AskFilledEventOnChain, TradeportV2BidPlacedEventOnChain,
    TradeportV2CollectionBidCancelledEventOnChain,
};
use nft_indexer::order_id::{NftV1TokenDataId, NftV1TokenId};

fn padded(digits: &str) -> String {
    let mut s = String::from("0x");
    for _ in 0..(64 - digits.len()) {
        s.push('0');
    }
    s.push_str(digits);
    s
}

#[test]
fn order_type_conversion_accepts_the_two_kinds() {
    assert!(matches!(
        convert_on_chain_order_type_to_db_order_type("fixed price").map(|t| t.to_i32()),
        Some(1)
    ));
    assert!(matches!(
        convert_on_chain_order_type_to_db_order_type("auction").map(|t| t.to_i32()),
        Some(2)
    ));
    assert!(convert_on_chain_order_type_to_db_order_type("dutch").is_none());
}

#[test]
fn tradeport_v1_bid_placed_fills_every_field() {
    let event = TradeportV1BidPlacedEventOnChain {
        timestamp: "1700000000".to_string(),
        nonce: "9".to_string(),
        bid_buyer: "0x5".to_string(),
        token_id: NftV1TokenId {
            token_data_id: NftV1TokenDataId {
                creator: "0x2".to_string(),
                collection: "Col".to_string(),
                name: "Tok".to_string(),
            },
            property_version: "0".to_string(),
        },
        price: "1000".to_string(),
    };
    let (bid, act) = event.to_db_nft_bid(padded("ab"), 77, 3).unwrap();
    let expected_id =
        hex::encode(blake3::hash("tradeport_v1_bid_order_9".as_bytes()).as_bytes());
    assert_eq!(bid.bid_obj_addr, expected_id);
    assert_eq!(bid.nft_id, "0");
    assert_eq!(bid.nft_name, "Tok");
    assert_eq!(bid.collection_addr, "");
    assert_eq!(bid.collection_creator_addr, padded("2"));
    assert_eq!(bid.collection_name, "Col");
    assert_eq!(bid.nft_standard, 1);
    assert_eq!(bid.marketplace_addr, padded("ab"));
    assert_eq!(bid.buyer_addr, padded("5"));
    assert_eq!(bid.seller_addr, "");
    assert_eq!(bid.price, 1000);
    assert_eq!(bid.payment_token, "0x1::aptos_coin::AptosCoin");
    assert_eq!(bid.payment_token_type, 1);
    assert_eq!(bid.order_placed_timestamp, 1700000000);
    assert_eq!(bid.order_placed_tx_version, 77);
    assert_eq!(bid.order_placed_event_idx, 3);
    assert_eq!(bid.order_filled_tx_version, 0);
    assert_eq!(bid.order_cancelled_tx_version, 0);
    assert_eq!(bid.order_status, 1);
    assert_eq!(act.activity_tx_version, 77);
    assert_eq!(act.activity_event_idx, 3);
    assert_eq!(act.activity_type, 4);
    assert_eq!(act.price, 1000);
}

#[test]
fn tradeport_v1_bid_placed_rejects_bad_numbers() {
    let event = TradeportV1BidPlacedEventOnChain {
        timestamp: "soon".to_string(),
        nonce: "9".to_string(),
        bid_buyer: "0x5".to_string(),
        token_id: NftV1TokenId {
            token_data_id: NftV1TokenDataId {
                creator: "0x2".to_string(),
                collection: "Col".to_string(),
                name: "Tok".to_string(),
            },
            property_version: "0".to_string(),
        },
        price: "1000".to_string(),
    };
    assert!(event.to_db_nft_bid(padded("ab"), 77, 3).is_err());
}

#[test]
fn aptos_labs_ask_placed_uses_metadata_and_order_type() {
    let event = AskPlacedEventOnChain {
        order_type: "auction".to_string(),
        listing: "0x7".to_string(),
        seller: "0x8".to_string(),
        price: "500".to_string(),
        token_metadata: TokenMetadataOnChain {
            creator_address: "0x2".to_string(),
            collection_name: "Col".to_string(),
            collection: MoveOptionObject { vec: vec![] },
            token_name: "Tok".to_string(),
            token: MoveOptionObject { vec: vec![] },
            property_version: MoveOptionU64 { vec: vec!["4".to_string()] },
        },
    };
    let (ask, act) = event.to_db_nft_ask(padded("ab"), 10, 0).unwrap();
    assert_eq!(ask.ask_obj_addr, padded("7"));
    assert_eq!(ask.nft_id, "4");
    assert_eq!(ask.nft_name, "Tok");
    assert_eq!(ask.seller_addr, padded("8"));
    assert_eq!(ask.buyer_addr, "");
    assert_eq!(ask.price, 500);
    assert_eq!(ask.order_status, 1);
    assert_eq!(ask.order_type, 2);
    assert_eq!(ask.order_placed_tx_version, 10);
    assert!(ask.order_placed_timestamp >= 0);
    assert_eq!(act.activity_type, 7);
}

#[test]
fn aptos_labs_ask_placed_rejects_unknown_order_type() {
    let event = AskPlacedEventOnChain {
        order_type: "raffle".to_string(),
        listing: "0x7".to_string(),
        seller: "0x8".to_string(),
        price: "500".to_string(),
        token_metadata: TokenMetadataOnChain {
            creator_address: "0x2".to_string(),
            collection_name: "Col".to_string(),
            collection: MoveOptionObject { vec: vec![] },
            token_name: "Tok".to_string(),
            token: MoveOptionObject { vec: vec![] },
            property_version: MoveOptionU64 { vec: vec!["4".to_string()] },
        },
    };
    assert!(event.to_db_nft_ask(padded("ab"), 10, 0).is_err());
}

#[test]
fn tradeport_v2_ask_filled_keeps_both_principals() {
    let event = TradeportV2AskFilledEventOnChain {
        listing: MoveObject { inner: "0x7".to_string() },
        timestamp: "1700000001".to_string(),
        token: MoveObject { inner: "0x9".to_string() },
        price: "800".to_string(),
        seller: "0x8".to_string(),
        buyer: "0x6".to_string(),
    };
    let (ask, act) = event.to_db_nft_ask(padded("ab"), 101, 2).unwrap();
    assert_eq!(ask.ask_obj_addr, padded("7"));
    assert_eq!(ask.nft_id, padded("9"));
    assert_eq!(ask.buyer_addr, padded("6"));
    assert_eq!(ask.seller_addr, padded("8"));
    assert_eq!(ask.order_filled_timestamp, 1700000001);
    assert_eq!(ask.order_filled_tx_version, 101);
    assert_eq!(ask.order_filled_event_idx, 2);
    assert_eq!(ask.order_status, 2);
    assert_eq!(act.activity_type, 8);
}

#[test]
fn tradeport_v2_bid_placed_standardizes_the_token_id() {
    let event = TradeportV2BidPlacedEventOnChain {
        timestamp: "1700000003".to_string(),
        bid: MoveObject { inner: "0x4".to_string() },
        bid_buyer: "0x5".to_string(),
        token: MoveObject { inner: "0xAB".to_string() },
        price: "600".to_string(),
    };
    let (bid, act) = event.to_db_nft_bid(padded("ab"), 33, 0).unwrap();
    assert_eq!(bid.bid_obj_addr, padded("4"));
    assert_eq!(bid.nft_id, padded("ab"));
    assert_eq!(bid.order_placed_tx_version, 33);
    assert_eq!(bid.order_status, 1);
    assert_eq!(act.nft_id, padded("ab"));
    assert_eq!(act.activity_type, 7);
}

#[test]
fn tradeport_v2_collection_bid_cancel_is_keyed_by_the_bid_object() {
    // The row's key is the bid object's address, not the collection's.
    let event = TradeportV2CollectionBidCancelledEventOnChain {
        timestamp: "1700000002".to_string(),
        bid: MoveObject { inner: "0x11".to_string() },
        bid_buyer: "0x5".to_string(),
        collection: MoveObject { inner: "0x22".to_string() },
        price: "900".to_string(),
    };
    let (bid, _) = event.to_db_collection_bid(padded("ab"), 55, 1).unwrap();
    assert_eq!(bid.bid_obj_addr, padded("11"));
    assert_eq!(bid.order_status, 3);
    assert_eq!(bid.order_cancelled_tx_version, 55);
}
