use nft_indexer::metadata::{
    CollectionMetadataOnChain, MoveObject, MoveOptionObject, MoveOptionU64, TokenMetadataOnChain,
};

fn padded(digits: &str) -> String {
    let mut s = String::from("0x");
    for _ in 0..(64 - digits.len()) {
        s.push('0');
    }
    s.push_str(digits);
    s
}

fn v1_token(property_version: &str) -> TokenMetadataOnChain {
    TokenMetadataOnChain {
        creator_address: "0x2".to_string(),
        collection_name: "Col".to_string(),
        collection: MoveOptionObject { vec: vec![] },
        token_name: "Tok".to_string(),
        token: MoveOptionObject { vec: vec![] },
        property_version: MoveOptionU64 { vec: vec![property_version.to_string()] },
    }
}

fn v2_token(token_addr: &str, collection_addr: &str) -> TokenMetadataOnChain {
    TokenMetadataOnChain {
        creator_address: "0x2".to_string(),
        collection_name: "Col".to_string(),
        collection: MoveOptionObject {
            vec: vec![MoveObject { inner: collection_addr.to_string() }],
        },
        token_name: "Tok".to_string(),
        token: MoveOptionObject { vec: vec![MoveObject { inner: token_addr.to_string() }] },
        property_version: MoveOptionU64 { vec: vec![] },
    }
}

#[test]
fn empty_object_wrapper_means_v1() {
    let t = v1_token("5");
    assert!(t.is_v1());
    assert_eq!(t.get_nft_standard(), 1);
}

#[test]
fn present_object_wrapper_means_v2() {
    let t = v2_token("0xabc", "0xdef");
    assert!(!t.is_v1());
    assert_eq!(t.get_nft_standard(), 2);
}

#[test]
fn v1_id_is_the_property_version() {
    let t = v1_token("5");
    assert_eq!(t.get_id(), "5");
    assert_eq!(t.get_collection_addr(), "");
}

#[test]
fn v2_id_is_the_token_object_address() {
    let t = v2_token("0xabc", "0xdef");
    assert_eq!(t.get_id(), padded("abc"));
    assert_eq!(t.get_collection_addr(), padded("def"));
}

#[test]
fn v1_fill_identifier_joins_name_and_version() {
    let t = v1_token("5");
    assert_eq!(t.get_nft_identifier_for_filled_order(), "Tok_5");
}

#[test]
fn v2_fill_identifier_is_the_token_address() {
    let t = v2_token("0xabc", "0xdef");
    assert_eq!(t.get_nft_identifier_for_filled_order(), padded("abc"));
}

#[test]
fn token_classification_follows_the_token_wrapper() {
    // The token-object wrapper decides the standard, not the collection
    // wrapper. Empty token wrapper beside a present collection object:
    // still the first standard.
    let v1 = TokenMetadataOnChain {
        creator_address: "0x2".to_string(),
        collection_name: "Col".to_string(),
        collection: MoveOptionObject { vec: vec![MoveObject { inner: "0xdef".to_string() }] },
        token_name: "Tok".to_string(),
        token: MoveOptionObject { vec: vec![] },
        property_version: MoveOptionU64 { vec: vec!["1".to_string()] },
    };
    assert!(v1.is_v1());
    assert_eq!(v1.get_nft_standard(), 1);
    assert_eq!(v1.get_id(), "1");
    assert_eq!(v1.get_collection_addr(), padded("def"));
    // Present token object beside an empty collection wrapper: the
    // second standard, with no collection address to give.
    let v2 = TokenMetadataOnChain {
        creator_address: "0x2".to_string(),
        collection_name: "Col".to_string(),
        collection: MoveOptionObject { vec: vec![] },
        token_name: "Tok".to_string(),
        token: MoveOptionObject { vec: vec![MoveObject { inner: "0xabc".to_string() }] },
        property_version: MoveOptionU64 { vec: vec![] },
    };
    assert!(!v2.is_v1());
    assert_eq!(v2.get_nft_standard(), 2);
    assert_eq!(v2.get_id(), padded("abc"));
    assert_eq!(v2.get_collection_addr(), "");
}

#[test]
fn collection_metadata_follows_the_same_split() {
    let v1 = CollectionMetadataOnChain {
        creator_address: "0x2".to_string(),
        collection_name: "Col".to_string(),
        collection: MoveOptionObject { vec: vec![] },
    };
    assert!(v1.is_v1());
    assert_eq!(v1.get_nft_standard(), 1);
    assert_eq!(v1.get_collection_addr(), "");
    let v2 = CollectionMetadataOnChain {
        creator_address: "0x2".to_string(),
        collection_name: "Col".to_string(),
        collection: MoveOptionObject { vec: vec![MoveObject { inner: "0xdef".to_string() }] },
    };
    assert!(!v2.is_v1());
    assert_eq!(v2.get_collection_addr(), padded("def"));
}
