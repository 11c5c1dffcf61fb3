use nft_indexer::order_id::{
    generate_ask_order_id_for_nft_v1, generate_bid_order_id_for_nft_v1,
    generate_collection_bid_order_id_for_nft_v1, NftV1TokenDataId, NftV1TokenId,
};

fn padded(digits: &str) -> String {
    let mut s = String::from("0x");
    for _ in 0..(64 - digits.len()) {
        s.push('0');
    }
    s.push_str(digits);
    s
}

fn token_id(creator: &str, collection: &str, name: &str, property_version: &str) -> NftV1TokenId {
    NftV1TokenId {
        token_data_id: NftV1TokenDataId {
            creator: creator.to_string(),
            collection: collection.to_string(),
            name: name.to_string(),
        },
        property_version: property_version.to_string(),
    }
}

#[test]
fn ask_id_hashes_the_standardized_preimage() {
    // The function pads both addresses before composing, so the digest
    // is taken over the canonical forms, not the raw arguments.
    let id = generate_ask_order_id_for_nft_v1("0x1".to_string(), token_id("0x2", "C", "N", "0"));
    let preimage = format!("{}_C_N_0_{}", padded("2"), padded("1"));
    let expected = hex::encode(blake3::hash(preimage.as_bytes()).as_bytes());
    assert_eq!(id, expected);
}

#[test]
fn ask_id_differs_from_raw_preimage_digest() {
    // Hashing the raw, unpadded arguments would give another digest: the
    // id generator must standardize first.
    let id = generate_ask_order_id_for_nft_v1("0x1".to_string(), token_id("0x2", "C", "N", "0"));
    let raw = hex::encode(blake3::hash("0x2_C_N_0_0x1".as_bytes()).as_bytes());
    assert_ne!(id, raw);
}

#[test]
fn ask_id_is_stable_across_calls() {
    let a = generate_ask_order_id_for_nft_v1("0xa".to_string(), token_id("0xb", "Col", "T", "3"));
    let b = generate_ask_order_id_for_nft_v1("0xa".to_string(), token_id("0xb", "Col", "T", "3"));
    assert_eq!(a, b);
}

#[test]
fn bid_id_hashes_the_nonce_preimage() {
    let id = generate_bid_order_id_for_nft_v1("42".to_string());
    let expected = hex::encode(blake3::hash("tradeport_v1_bid_order_42".as_bytes()).as_bytes());
    assert_eq!(id, expected);
}

#[test]
fn collection_bid_id_keeps_the_double_underscore() {
    let id = generate_collection_bid_order_id_for_nft_v1("7".to_string());
    let expected =
        hex::encode(blake3::hash("tradeport_v1_collection_bid_order__7".as_bytes()).as_bytes());
    assert_eq!(id, expected);
    let single =
        hex::encode(blake3::hash("tradeport_v1_collection_bid_order_7".as_bytes()).as_bytes());
    assert_ne!(id, single);
}
