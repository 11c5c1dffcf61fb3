use nft_indexer::extractor::ContractEvent;
use nft_indexer::marketplace_storer::Storer;
use nft_indexer::models::{Activity, CollectionBid, FilledCollectionBid, NftAsk};

fn blank_ask(key: &str) -> NftAsk {
    NftAsk {
        ask_obj_addr: key.to_string(),
        nft_id: "".to_string(),
        nft_name: "".to_string(),
        collection_addr: "".to_string(),
        collection_creator_addr: "".to_string(),
        collection_name: "".to_string(),
        nft_standard: 1,
        marketplace_addr: "0xm".to_string(),
        buyer_addr: "".to_string(),
        seller_addr: "".to_string(),
        price: 0,
        royalties: 0,
        commission: 0,
        payment_token: "0x1::aptos_coin::AptosCoin".to_string(),
        payment_token_type: 1,
        order_placed_timestamp: 0,
        order_placed_tx_version: 0,
        order_placed_event_idx: 0,
        order_filled_timestamp: 0,
        order_filled_tx_version: 0,
        order_filled_event_idx: 0,
        order_cancelled_timestamp: 0,
        order_cancelled_tx_version: 0,
        order_cancelled_event_idx: 0,
        order_status: 1,
        order_type: 1,
    }
}

fn activity(tx: i64, idx: i64, kind: i32) -> Activity {
    Activity {
        nft_id: "".to_string(),
        nft_name: "".to_string(),
        collection_addr: "".to_string(),
        collection_creator_addr: "".to_string(),
        collection_name: "".to_string(),
        nft_standard: 1,
        marketplace_addr: "0xm".to_string(),
        buyer_addr: "".to_string(),
        seller_addr: "".to_string(),
        price: 0,
        royalties: 0,
        commission: 0,
        payment_token: "0x1::aptos_coin::AptosCoin".to_string(),
        payment_token_type: 1,
        activity_timestamp: 0,
        activity_tx_version: tx,
        activity_event_idx: idx,
        activity_type: kind,
    }
}

fn ask_placed(key: &str, tx: i64, idx: i64, price: i64) -> ContractEvent {
    ask_placed_by(key, tx, idx, price, "0xS")
}

fn ask_placed_by(key: &str, tx: i64, idx: i64, price: i64, seller: &str) -> ContractEvent {
    let mut ask = blank_ask(key);
    ask.price = price;
    ask.seller_addr = seller.to_string();
    ask.order_placed_tx_version = tx;
    ask.order_placed_event_idx = idx;
    ask.order_status = 1;
    ContractEvent::AskPlacedEvent((ask, activity(tx, idx, 7)))
}

fn ask_filled(key: &str, tx: i64, idx: i64, price: i64, buyer: &str, seller: &str) -> ContractEvent {
    let mut ask = blank_ask(key);
    ask.price = price;
    ask.buyer_addr = buyer.to_string();
    ask.seller_addr = seller.to_string();
    ask.order_placed_tx_version = 0;
    ask.order_filled_tx_version = tx;
    ask.order_filled_event_idx = idx;
    ask.order_status = 2;
    ContractEvent::AskFilledEvent((ask, activity(tx, idx, 8)))
}

fn ask_cancelled(key: &str, tx: i64, idx: i64) -> ContractEvent {
    let mut ask = blank_ask(key);
    ask.order_cancelled_tx_version = tx;
    ask.order_cancelled_event_idx = idx;
    ask.order_status = 3;
    ContractEvent::AskCancelledEvent((ask, activity(tx, idx, 9)))
}

fn blank_collection_bid(key: &str) -> CollectionBid {
    CollectionBid {
        bid_obj_addr: key.to_string(),
        collection_addr: "".to_string(),
        collection_creator_addr: "".to_string(),
        collection_name: "".to_string(),
        nft_standard: 1,
        marketplace_addr: "0xm".to_string(),
        buyer_addr: "".to_string(),
        total_nft_amount: 0,
        price: 0,
        payment_token: "0x1::aptos_coin::AptosCoin".to_string(),
        payment_token_type: 1,
        order_placed_timestamp: 0,
        order_placed_tx_version: 0,
        order_placed_event_idx: 0,
        latest_order_filled_timestamp: 0,
        latest_order_filled_tx_version: 0,
        latest_order_filled_event_idx: 0,
        order_cancelled_timestamp: 0,
        order_cancelled_tx_version: 0,
        order_cancelled_event_idx: 0,
        order_status: 1,
        order_expiration_timestamp: 0,
    }
}

fn collection_bid_placed(key: &str, tx: i64, idx: i64, amount: i64, price: i64) -> ContractEvent {
    let mut bid = blank_collection_bid(key);
    bid.total_nft_amount = amount;
    bid.price = price;
    bid.order_placed_tx_version = tx;
    bid.order_placed_event_idx = idx;
    ContractEvent::CollectionBidPlacedEvent((bid, activity(tx, idx, 1)))
}

fn collection_bid_filled(key: &str, tx: i64, idx: i64, nft_id: &str, seller: &str) -> ContractEvent {
    let mut bid = blank_collection_bid(key);
    bid.latest_order_filled_tx_version = tx;
    bid.latest_order_filled_event_idx = idx;
    let fill = FilledCollectionBid {
        bid_obj_addr: key.to_string(),
        nft_id: nft_id.to_string(),
        nft_name: "".to_string(),
        seller_addr: seller.to_string(),
        price: 100,
        royalties: 0,
        commission: 0,
        order_filled_timestamp: 0,
        order_filled_tx_version: tx,
        order_filled_event_idx: idx,
    };
    ContractEvent::CollectionBidFilledEvent((bid, fill, activity(tx, idx, 2)))
}

#[test]
fn place_then_fill_across_batches() {
    let mut storer = Storer::new();
    storer.process(vec![ask_placed("0xA", 100, 0, 1000)]);
    storer.process(vec![ask_filled("0xA", 101, 2, 1000, "0xB", "0xS")]);
    assert_eq!(storer.store.nft_asks.len(), 1);
    let row = &storer.store.nft_asks[0];
    assert_eq!(row.order_status, 2);
    assert_eq!(row.order_placed_tx_version, 100);
    assert_eq!(row.order_placed_event_idx, 0);
    assert_eq!(row.order_filled_tx_version, 101);
    assert_eq!(row.order_filled_event_idx, 2);
    assert_eq!(row.order_cancelled_tx_version, 0);
    assert_eq!(row.buyer_addr, "0xB");
    assert_eq!(row.seller_addr, "0xS");
}

#[test]
fn out_of_order_events_within_a_batch() {
    let mut storer = Storer::new();
    storer.process(vec![
        ask_filled("0xA", 5, 3, 1000, "0xB", "0xS"),
        ask_placed("0xA", 5, 0, 900),
        ask_placed("0xA", 5, 1, 1000),
    ]);
    assert_eq!(storer.store.nft_asks.len(), 1);
    let row = &storer.store.nft_asks[0];
    assert_eq!(row.order_placed_tx_version, 5);
    assert_eq!(row.order_placed_event_idx, 1);
    assert_eq!(row.order_filled_tx_version, 5);
    assert_eq!(row.order_filled_event_idx, 3);
    assert_eq!(row.order_status, 2);
}

#[test]
fn replaying_batches_changes_nothing() {
    let mut storer = Storer::new();
    let batch_a = vec![ask_placed("0xA", 100, 0, 1000)];
    let batch_b = vec![ask_filled("0xA", 101, 2, 1000, "0xB", "0xS")];
    storer.process(batch_a);
    storer.process(batch_b);
    let placed_tx = storer.store.nft_asks[0].order_placed_tx_version;
    let filled_tx = storer.store.nft_asks[0].order_filled_tx_version;
    let status = storer.store.nft_asks[0].order_status;
    let price = storer.store.nft_asks[0].price;
    storer.process(vec![ask_placed("0xA", 100, 0, 1000)]);
    storer.process(vec![ask_filled("0xA", 101, 2, 1000, "0xB", "0xS")]);
    assert_eq!(storer.store.nft_asks.len(), 1);
    assert_eq!(storer.store.nft_asks[0].order_placed_tx_version, placed_tx);
    assert_eq!(storer.store.nft_asks[0].order_filled_tx_version, filled_tx);
    assert_eq!(storer.store.nft_asks[0].order_status, status);
    assert_eq!(storer.store.nft_asks[0].price, price);
    assert_eq!(storer.store.activities.len(), 2);
}

#[test]
fn collection_bid_partial_fills_stay_open() {
    let mut storer = Storer::new();
    storer.process(vec![collection_bid_placed("0xCB", 10, 0, 3, 100)]);
    storer.process(vec![collection_bid_filled("0xCB", 11, 0, "N1", "0xS1")]);
    storer.process(vec![collection_bid_filled("0xCB", 12, 0, "N2", "0xS2")]);
    assert_eq!(storer.store.collection_bids.len(), 1);
    let bid = &storer.store.collection_bids[0];
    assert_eq!(bid.latest_order_filled_tx_version, 12);
    assert_eq!(bid.order_status, 1);
    assert_eq!(bid.total_nft_amount, 3);
    assert_eq!(storer.store.filled_collection_bids.len(), 2);
}

#[test]
fn cancel_then_late_place_keeps_the_cancel() {
    let mut storer = Storer::new();
    storer.process(vec![ask_cancelled("0xA", 20, 0)]);
    storer.process(vec![ask_placed("0xA", 10, 0, 1000)]);
    assert_eq!(storer.store.nft_asks.len(), 1);
    let row = &storer.store.nft_asks[0];
    assert_eq!(row.order_cancelled_tx_version, 20);
    assert_eq!(row.order_placed_tx_version, 10);
    assert_eq!(row.order_status, 3);
}

#[test]
fn placed_duplicates_keep_the_larger_index() {
    let mut storer = Storer::new();
    storer.process(vec![
        ask_placed("0xA", 7, 0, 900),
        ask_placed("0xA", 7, 4, 1100),
    ]);
    assert_eq!(storer.store.nft_asks.len(), 1);
    let row = &storer.store.nft_asks[0];
    assert_eq!(row.order_placed_event_idx, 4);
    assert_eq!(row.price, 1100);
}

#[test]
fn duplicate_activities_keep_the_first_insert() {
    let mut storer = Storer::new();
    let mut first = activity(9, 1, 8);
    first.price = 111;
    let mut dup = activity(9, 1, 8);
    dup.price = 222;
    let mut ask1 = blank_ask("0xA");
    ask1.order_filled_tx_version = 9;
    ask1.order_filled_event_idx = 1;
    ask1.order_status = 2;
    let mut ask2 = blank_ask("0xA");
    ask2.order_filled_tx_version = 9;
    ask2.order_filled_event_idx = 1;
    ask2.order_status = 2;
    storer.process(vec![ContractEvent::AskFilledEvent((ask1, first))]);
    storer.process(vec![ContractEvent::AskFilledEvent((ask2, dup))]);
    assert_eq!(storer.store.activities.len(), 1);
    assert_eq!(storer.store.activities[0].price, 111);
}

#[test]
fn fill_before_place_creates_a_stub_in_the_terminal_state() {
    let mut storer = Storer::new();
    storer.process(vec![ask_filled("0xA", 50, 0, 700, "0xB", "0xS")]);
    assert_eq!(storer.store.nft_asks.len(), 1);
    assert_eq!(storer.store.nft_asks[0].order_status, 2);
    storer.process(vec![ask_placed("0xA", 40, 0, 700)]);
    let row = &storer.store.nft_asks[0];
    assert_eq!(row.order_placed_tx_version, 40);
    assert_eq!(row.order_status, 2);
}

#[test]
fn repeated_fills_on_one_key_are_order_invariant() {
    // Two filled events for one stored ask, delivered in either order,
    // leave the same row: the batch resolves to its dominating event.
    let mut forward = Storer::new();
    forward.process(vec![ask_placed("0xA", 1, 0, 900)]);
    forward.process(vec![
        ask_filled("0xA", 5, 1, 900, "0xB1", "0xS"),
        ask_filled("0xA", 5, 3, 950, "0xB2", "0xS"),
    ]);
    let mut backward = Storer::new();
    backward.process(vec![ask_placed("0xA", 1, 0, 900)]);
    backward.process(vec![
        ask_filled("0xA", 5, 3, 950, "0xB2", "0xS"),
        ask_filled("0xA", 5, 1, 900, "0xB1", "0xS"),
    ]);
    let f = &forward.store.nft_asks[0];
    let b = &backward.store.nft_asks[0];
    assert_eq!(f.order_filled_tx_version, b.order_filled_tx_version);
    assert_eq!(f.order_filled_event_idx, b.order_filled_event_idx);
    assert_eq!(f.order_filled_event_idx, 3);
    assert_eq!(f.buyer_addr, b.buyer_addr);
    assert_eq!(f.buyer_addr, "0xB2");
    assert_eq!(f.price, b.price);
    assert_eq!(f.price, 950);
    assert_eq!(f.order_status, b.order_status);
}

#[test]
fn distinct_keys_stay_separate() {
    let mut storer = Storer::new();
    storer.process(vec![
        ask_placed("0xA", 1, 0, 10),
        ask_placed("0xB", 1, 1, 20),
    ]);
    assert_eq!(storer.store.nft_asks.len(), 2);
}
