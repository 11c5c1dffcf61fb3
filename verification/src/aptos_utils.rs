//! Shared domain constants: NFT standards, payment tokens, order states.

use vstd::prelude::*;

verus! {

/// The payment token used by every decoded order: the APT coin.
pub fn apt_coin() -> (r: String)
    ensures
        r@ == "0x1::aptos_coin::AptosCoin"@,
{
    String::from_str("0x1::aptos_coin::AptosCoin")
}

/// The two coexisting NFT standards.
pub enum NFTStandard {
    V1,
    V2,
}

impl NFTStandard {
    /// The stored representation of the standard.
    pub open spec fn spec_to_i32(self) -> i32 {
        match self {
            NFTStandard::V1 => 1,
            NFTStandard::V2 => 2,
        }
    }

    /// The stored representation of the standard.
    #[verifier::when_used_as_spec(spec_to_i32)]
    pub fn to_i32(self) -> (r: i32)
        ensures
            r == self.spec_to_i32(),
    {
        match self {
            NFTStandard::V1 => 1,
            NFTStandard::V2 => 2,
        }
    }
}

/// How an order is paid: with a coin, or with a fungible asset.
pub enum PaymentTokenType {
    Coin,
    FA,
}

impl PaymentTokenType {
    /// The stored representation of the payment token type.
    pub open spec fn spec_to_i32(self) -> i32 {
        match self {
            PaymentTokenType::Coin => 1,
            PaymentTokenType::FA => 2,
        }
    }

    /// The stored representation of the payment token type.
    #[verifier::when_used_as_spec(spec_to_i32)]
    pub fn to_i32(self) -> (r: i32)
        ensures
            r == self.spec_to_i32(),
    {
        match self {
            PaymentTokenType::Coin => 1,
            PaymentTokenType::FA => 2,
        }
    }
}

/// Lifecycle state of an order.
pub enum OrderStatus {
    Open,
    Filled,
    Cancelled,
}

impl OrderStatus {
    /// The stored representation of the status.
    pub open spec fn spec_to_i32(self) -> i32 {
        match self {
            OrderStatus::Open => 1,
            OrderStatus::Filled => 2,
            OrderStatus::Cancelled => 3,
        }
    }

    /// The stored representation of the status.
    #[verifier::when_used_as_spec(spec_to_i32)]
    pub fn to_i32(self) -> (r: i32)
        ensures
            r == self.spec_to_i32(),
    {
        match self {
            OrderStatus::Open => 1,
            OrderStatus::Filled => 2,
            OrderStatus::Cancelled => 3,
        }
    }
}

/// Whether an ask is a fixed-price listing or an auction.
pub enum AskOrderType {
    FixedPrice,
    Auction,
}

impl AskOrderType {
    /// The stored representation of the order type.
    pub open spec fn spec_to_i32(self) -> i32 {
        match self {
            AskOrderType::FixedPrice => 1,
            AskOrderType::Auction => 2,
        }
    }

    /// The stored representation of the order type.
    #[verifier::when_used_as_spec(spec_to_i32)]
    pub fn to_i32(self) -> (r: i32)
        ensures
            r == self.spec_to_i32(),
    {
        match self {
            AskOrderType::FixedPrice => 1,
            AskOrderType::Auction => 2,
        }
    }
}

/// The kind of domain event an activity row records.
pub enum ActivityType {
    CollectionBidPlaced,
    CollectionBidFilled,
    CollectionBidCancelled,
    NFTBidPlaced,
    NFTBidFilled,
    NFTBidCancelled,
    NFTAskPlaced,
    NFTAskFilled,
    NFTAskCancelled,
}

impl ActivityType {
    /// The stored representation of the activity type.
    pub open spec fn spec_to_i32(self) -> i32 {
        match self {
            ActivityType::CollectionBidPlaced => 1,
            ActivityType::CollectionBidFilled => 2,
            ActivityType::CollectionBidCancelled => 3,
            ActivityType::NFTBidPlaced => 4,
            ActivityType::NFTBidFilled => 5,
            ActivityType::NFTBidCancelled => 6,
            ActivityType::NFTAskPlaced => 7,
            ActivityType::NFTAskFilled => 8,
            ActivityType::NFTAskCancelled => 9,
        }
    }

    /// The stored representation of the activity type.
    #[verifier::when_used_as_spec(spec_to_i32)]
    pub fn to_i32(self) -> (r: i32)
        ensures
            r == self.spec_to_i32(),
    {
        match self {
            ActivityType::CollectionBidPlaced => 1,
            ActivityType::CollectionBidFilled => 2,
            ActivityType::CollectionBidCancelled => 3,
            ActivityType::NFTBidPlaced => 4,
            ActivityType::NFTBidFilled => 5,
            ActivityType::NFTBidCancelled => 6,
            ActivityType::NFTAskPlaced => 7,
            ActivityType::NFTAskFilled => 8,
            ActivityType::NFTAskCancelled => 9,
        }
    }
}

/// Relies on `std::time::SystemTime::now`: seconds since the Unix epoch
/// as the wall clock gives them; never negative, nothing else is promised
/// of the value.
#[verifier::external_body]
pub fn get_unix_timestamp_in_secs() -> (r: i64)
    ensures
        r >= 0,
{
    std::time::SystemTime::now().duration_since(std::time::UNIX_EPOCH).map(
        |d| d.as_secs().min(i64::MAX as u64) as i64,
    ).unwrap_or(0)
}

} // verus!
