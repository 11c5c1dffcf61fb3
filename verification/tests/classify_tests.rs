use nft_indexer::extractor::{
    classify_marketplace_event, split_event_type, EventDialect, Extractor, MarketplaceEventKind,
};

fn padded(digits: &str) -> String {
    let mut s = String::from("0x");
    for _ in 0..(64 - digits.len()) {
        s.push('0');
    }
    s.push_str(digits);
    s
}

#[test]
fn splits_a_three_part_type() {
    let r = split_event_type("0x1::events::ListingPlaced");
    let (a, m, n) = r.unwrap();
    assert_eq!(a, "0x1");
    assert_eq!(m, "events");
    assert_eq!(n, "ListingPlaced");
}

#[test]
fn split_drops_a_generic_tail() {
    let r = split_event_type("0x1::events::ListingPlaced<0x1::coin::Coin>");
    let (_, _, n) = r.unwrap();
    assert_eq!(n, "ListingPlaced<0x1");
}

#[test]
fn split_refuses_short_types() {
    assert!(split_event_type("0x1::events").is_none());
    assert!(split_event_type("plain").is_none());
}

#[test]
fn aptos_labs_patterns_classify() {
    assert!(matches!(
        classify_marketplace_event("events", "TokenOfferPlaced"),
        Some((EventDialect::AptosLabs, MarketplaceEventKind::BidPlaced))
    ));
    assert!(matches!(
        classify_marketplace_event("events", "ListingFilled"),
        Some((EventDialect::AptosLabs, MarketplaceEventKind::AskFilled))
    ));
    assert!(matches!(
        classify_marketplace_event("events", "CollectionOfferCancelled"),
        Some((EventDialect::AptosLabs, MarketplaceEventKind::CollectionBidCancelled))
    ));
}

#[test]
fn both_cancel_spellings_are_accepted() {
    assert!(matches!(
        classify_marketplace_event("events", "TokenOfferCancelled"),
        Some((EventDialect::AptosLabs, MarketplaceEventKind::BidCancelled))
    ));
    assert!(matches!(
        classify_marketplace_event("events", "TokenOfferCanceled"),
        Some((EventDialect::AptosLabs, MarketplaceEventKind::BidCancelled))
    ));
}

#[test]
fn unknown_cancel_spelling_matches_nothing() {
    // Neither `Cancelled` nor `Canceled`: falls through every dialect.
    assert!(classify_marketplace_event("events", "ListingCancelld").is_none());
}

#[test]
fn tradeport_v1_patterns_classify() {
    assert!(matches!(
        classify_marketplace_event("biddings", "InsertTokenBidEvent"),
        Some((EventDialect::TradeportV1, MarketplaceEventKind::BidPlaced))
    ));
    assert!(matches!(
        classify_marketplace_event("listings", "UpdateListingEvent"),
        Some((EventDialect::TradeportV1, MarketplaceEventKind::AskUpdated))
    ));
    assert!(matches!(
        classify_marketplace_event("biddings", "AcceptCollectionBidEvent"),
        Some((EventDialect::TradeportV1, MarketplaceEventKind::CollectionBidFilled))
    ));
}

#[test]
fn tradeport_v2_patterns_classify() {
    assert!(matches!(
        classify_marketplace_event("listings_v2", "BuyEvent"),
        Some((EventDialect::TradeportV2, MarketplaceEventKind::AskFilled))
    ));
    assert!(matches!(
        classify_marketplace_event("biddings_v2", "DeleteCollectionBidEvent"),
        Some((EventDialect::TradeportV2, MarketplaceEventKind::CollectionBidCancelled))
    ));
}

#[test]
fn modules_do_not_cross_dialects() {
    assert!(classify_marketplace_event("biddings_v2", "UpdateListingEvent").is_none());
    assert!(classify_marketplace_event("listings", "TokenOfferPlaced").is_none());
}

#[test]
fn extractor_classifies_followed_addresses_only() {
    let ex = Extractor::new(vec![padded("ab")]);
    let hit = ex.classify_event("0xAB::events::ListingPlaced");
    let (addr, dialect, kind) = hit.unwrap();
    assert_eq!(addr, padded("ab"));
    assert!(matches!(dialect, EventDialect::AptosLabs));
    assert!(matches!(kind, MarketplaceEventKind::AskPlaced));
    assert!(ex.classify_event("0xCD::events::ListingPlaced").is_none());
    assert!(ex.classify_event("0xAB::other::ListingPlaced").is_none());
}
