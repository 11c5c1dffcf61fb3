//! Synthetic order ids.
//!
//! The Tradeport v1 contract mints no object address for an order, so the
//! indexer derives a deterministic id: the lower-case hex BLAKE3 digest of
//! a preimage composed from the order's identity. Addresses that enter a
//! preimage are standardized first, so that every spelling of the same
//! account yields the same id.

use vstd::prelude::*;
use vstd::string::StringExecFns;
use vstd::utf8::encode_utf8;

use crate::address::{spec_standardize_address, standardize_address};
use crate::hashing::{blake3_hash, blake3_of, hex_encode, spec_hex_encode};
use crate::text::string_push;

verus! {

/// Identity of the token data shared by tokens of different property
/// versions.
pub struct NftV1TokenDataId {
    pub creator: String,
    pub collection: String,
    pub name: String,
}

/// Identity of one NFT of the first standard.
pub struct NftV1TokenId {
    /// The id of the common token data shared by tokens with different
    /// property versions.
    pub token_data_id: NftV1TokenDataId,
    /// The version of the property map; a mutated fungible token gets a
    /// fresh property version that makes it an NFT.
    pub property_version: String,
}

/// Identity of one collection of the first standard.
pub struct NftV1CollectionId {
    pub collection_creator: String,
    pub collection_name: String,
}

/// A field-for-field copy of a token id.
pub fn clone_token_id(t: &NftV1TokenId) -> (r: NftV1TokenId)
    ensures
        r.token_data_id.creator@ == t.token_data_id.creator@,
        r.token_data_id.collection@ == t.token_data_id.collection@,
        r.token_data_id.name@ == t.token_data_id.name@,
        r.property_version@ == t.property_version@,
{
    NftV1TokenId {
        token_data_id: NftV1TokenDataId {
            creator: t.token_data_id.creator.clone(),
            collection: t.token_data_id.collection.clone(),
            name: t.token_data_id.name.clone(),
        },
        property_version: t.property_version.clone(),
    }
}

/// The id derived from a preimage: the lower-case hex form of its BLAKE3
/// digest.
pub open spec fn spec_order_id(preimage: Seq<char>) -> Seq<char> {
    spec_hex_encode(blake3_of(encode_utf8(preimage)))
}

/// Preimage of an ask id: creator, collection, name, property version and
/// owner joined by `_`, with both addresses standardized.
pub open spec fn spec_ask_order_preimage(
    owner: Seq<char>,
    creator: Seq<char>,
    collection: Seq<char>,
    name: Seq<char>,
    property_version: Seq<char>,
) -> Seq<char> {
    spec_standardize_address(creator) + seq!['_'] + collection + seq!['_'] + name + seq!['_']
        + property_version + seq!['_'] + spec_standardize_address(owner)
}

fn order_id_of(preimage: &String) -> (r: String)
    ensures
        r@ == spec_order_id(preimage@),
{
    let digest = blake3_hash(preimage.as_str().as_bytes());
    hex_encode(&digest)
}

/// Derives the id of a Tradeport v1 ask from its owner and token.
pub fn generate_ask_order_id_for_nft_v1(owner: String, token_id: NftV1TokenId) -> (r: String)
    ensures
        r@ == spec_order_id(
            spec_ask_order_preimage(
                owner@,
                token_id.token_data_id.creator@,
                token_id.token_data_id.collection@,
                token_id.token_data_id.name@,
                token_id.property_version@,
            ),
        ),
{
    let mut pre = standardize_address(token_id.token_data_id.creator.as_str());
    string_push(&mut pre, '_');
    pre.append(token_id.token_data_id.collection.as_str());
    string_push(&mut pre, '_');
    pre.append(token_id.token_data_id.name.as_str());
    string_push(&mut pre, '_');
    pre.append(token_id.property_version.as_str());
    string_push(&mut pre, '_');
    let std_owner = standardize_address(owner.as_str());
    pre.append(std_owner.as_str());
    assert(pre@ =~= spec_ask_order_preimage(
        owner@,
        token_id.token_data_id.creator@,
        token_id.token_data_id.collection@,
        token_id.token_data_id.name@,
        token_id.property_version@,
    ));
    order_id_of(&pre)
}

/// Preimage of a Tradeport v1 bid id, derived from the bid's nonce.
pub open spec fn spec_bid_order_preimage(nonce: Seq<char>) -> Seq<char> {
    "tradeport_v1_bid_order_"@ + nonce
}

/// Derives the id of a Tradeport v1 bid from its nonce.
pub fn generate_bid_order_id_for_nft_v1(nonce: String) -> (r: String)
    ensures
        r@ == spec_order_id(spec_bid_order_preimage(nonce@)),
{
    let mut pre = String::from_str("tradeport_v1_bid_order_");
    pre.append(nonce.as_str());
    order_id_of(&pre)
}

/// Preimage of a Tradeport v1 collection bid id, derived from the bid's
/// nonce. The double underscore is part of the preimage.
pub open spec fn spec_collection_bid_order_preimage(nonce: Seq<char>) -> Seq<char> {
    "tradeport_v1_collection_bid_order__"@ + nonce
}

/// Derives the id of a Tradeport v1 collection bid from its nonce.
pub fn generate_collection_bid_order_id_for_nft_v1(nonce: String) -> (r: String)
    ensures
        r@ == spec_order_id(spec_collection_bid_order_preimage(nonce@)),
{
    let mut pre = String::from_str("tradeport_v1_collection_bid_order__");
    pre.append(nonce.as_str());
    order_id_of(&pre)
}

} // verus!
