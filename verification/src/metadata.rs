//! Token and collection metadata as the marketplace contracts emit it.
//!
//! The two NFT standards are told apart structurally: metadata of the
//! first standard carries an empty object wrapper, metadata of the second
//! carries the object's address in it.

use vstd::prelude::*;
use vstd::string::StringExecFns;

use crate::address::{spec_standardize_address, standardize_address};
use crate::aptos_utils::NFTStandard;
use crate::text::string_push;

verus! {

/// An on-chain object reference: the address of the object.
pub struct MoveObject {
    pub inner: String,
}

/// An on-chain `Option<Object>`: empty or one object.
pub struct MoveOptionObject {
    pub vec: Vec<MoveObject>,
}

/// An on-chain `Option<u64>`: empty or one number, written as a string.
pub struct MoveOptionU64 {
    pub vec: Vec<String>,
}

/// Collection metadata carried by collection-level events.
pub struct CollectionMetadataOnChain {
    pub creator_address: String,
    pub collection_name: String,
    pub collection: MoveOptionObject,
}

impl CollectionMetadataOnChain {
    /// The metadata describes a collection of the first standard.
    pub open spec fn spec_is_v1(&self) -> bool {
        self.collection.vec@.len() == 0
    }

    /// Tells the NFT standard from the object wrapper: empty means the
    /// first standard.
    #[verifier::when_used_as_spec(spec_is_v1)]
    pub fn is_v1(&self) -> (r: bool)
        ensures
            r == self.spec_is_v1(),
    {
        self.collection.vec.len() == 0
    }

    /// The stored representation of the collection's NFT standard.
    pub fn get_nft_standard(&self) -> (r: i32)
        ensures
            r == if self.spec_is_v1() {
                1int
            } else {
                2int
            },
    {
        if self.is_v1() {
            NFTStandard::V1.to_i32()
        } else {
            NFTStandard::V2.to_i32()
        }
    }

    /// The collection's address under the second standard; empty under
    /// the first, which has none.
    pub fn get_collection_addr(&self) -> (r: String)
        ensures
            r@ == if self.spec_is_v1() {
                Seq::<char>::empty()
            } else {
                spec_standardize_address(self.collection.vec@[0].inner@)
            },
    {
        if self.is_v1() {
            String::new()
        } else {
            standardize_address(self.collection.vec[0].inner.as_str())
        }
    }
}

/// Token metadata carried by token-level events.
pub struct TokenMetadataOnChain {
    pub creator_address: String,
    pub collection_name: String,
    pub collection: MoveOptionObject,
    pub token_name: String,
    pub token: MoveOptionObject,
    pub property_version: MoveOptionU64,
}

impl TokenMetadataOnChain {
    /// The metadata describes a token of the first standard: its
    /// token-object wrapper is empty.
    pub open spec fn spec_is_v1(&self) -> bool {
        self.token.vec@.len() == 0
    }

    /// The field the standard implies is present: a token of the first
    /// standard carries its property version. The second standard needs
    /// nothing further — its token object is what classifies it.
    pub open spec fn wf(&self) -> bool {
        self.spec_is_v1() ==> self.property_version.vec@.len() > 0
    }

    /// Tells the NFT standard from the token-object wrapper: empty means
    /// the first standard.
    #[verifier::when_used_as_spec(spec_is_v1)]
    pub fn is_v1(&self) -> (r: bool)
        ensures
            r == self.spec_is_v1(),
    {
        self.token.vec.len() == 0
    }

    /// Whether the field the standard implies is present.
    pub fn well_formed(&self) -> (r: bool)
        ensures
            r == self.wf(),
    {
        if self.is_v1() {
            self.property_version.vec.len() > 0
        } else {
            true
        }
    }

    /// The stored representation of the token's NFT standard.
    pub fn get_nft_standard(&self) -> (r: i32)
        ensures
            r == if self.spec_is_v1() {
                1int
            } else {
                2int
            },
    {
        if self.is_v1() {
            NFTStandard::V1.to_i32()
        } else {
            NFTStandard::V2.to_i32()
        }
    }

    /// The token's id: its property version under the first standard, its
    /// object address under the second.
    pub fn get_id(&self) -> (r: String)
        requires
            self.wf(),
        ensures
            r@ == if self.spec_is_v1() {
                self.property_version.vec@[0]@
            } else {
                spec_standardize_address(self.token.vec@[0].inner@)
            },
    {
        if self.is_v1() {
            let s: &String = &self.property_version.vec[0];
            s.clone()
        } else {
            standardize_address(self.token.vec[0].inner.as_str())
        }
    }

    /// The collection object's address, when the metadata carries one;
    /// empty otherwise (the first standard has no collection object).
    pub fn get_collection_addr(&self) -> (r: String)
        ensures
            r@ == if self.collection.vec@.len() == 0 {
                Seq::<char>::empty()
            } else {
                spec_standardize_address(self.collection.vec@[0].inner@)
            },
    {
        if self.collection.vec.len() == 0 {
            String::new()
        } else {
            standardize_address(self.collection.vec[0].inner.as_str())
        }
    }

    /// What identifies the NFT inside a filled collection bid: the token
    /// name and property version under the first standard, the token
    /// object's address under the second.
    pub fn get_nft_identifier_for_filled_order(&self) -> (r: String)
        requires
            self.wf(),
        ensures
            r@ == if self.spec_is_v1() {
                self.token_name@ + seq!['_'] + self.property_version.vec@[0]@
            } else {
                spec_standardize_address(self.token.vec@[0].inner@)
            },
    {
        if self.is_v1() {
            let mut id = self.token_name.clone();
            string_push(&mut id, '_');
            id.append(self.property_version.vec[0].as_str());
            assert(id@ =~= self.token_name@ + seq!['_'] + self.property_version.vec@[0]@);
            id
        } else {
            standardize_address(self.token.vec[0].inner.as_str())
        }
    }
}

} // verus!
