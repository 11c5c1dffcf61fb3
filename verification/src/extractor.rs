//! Event classification: which contract dialect and event kind a raw
//! event type names.
//!
//! An on-chain event carries a type of the form `<addr>::<module>::<name>`.
//! The address is standardized and held against the configured contract
//! set; the module and name decide the dialect (Aptos-labs, Tradeport v1,
//! Tradeport v2) and the event kind. The dialects are tried in that fixed
//! order; their module names are disjoint, and both spellings `Cancelled`
//! and `Canceled` are accepted.

use vstd::prelude::*;
use vstd::string::StrSliceExecFns;

use crate::address::{spec_standardize_address, standardize_address};
use crate::models::{Activity, CollectionBid, FilledCollectionBid, NftAsk, NftBid};
use crate::text::{spec_starts_with, str_eq, str_starts_with};

verus! {

/// The position of the first `::` at or after `from`, if any.
pub open spec fn spec_first_sep(s: Seq<char>, from: int) -> Option<int>
    decreases s.len() - from,
{
    if from < 0 || from + 2 > s.len() {
        None
    } else if s[from] == ':' && s[from + 1] == ':' {
        Some(from)
    } else {
        spec_first_sep(s, from + 1)
    }
}

/// The first three `::`-separated segments of an event type: the address,
/// the module, and the name. The name runs to the next `::` or to the
/// end; anything after a third separator is dropped. `None` when there
/// are fewer than three segments.
pub open spec fn spec_split_event_type(s: Seq<char>) -> Option<(Seq<char>, Seq<char>, Seq<char>)> {
    match spec_first_sep(s, 0) {
        Option::None => Option::None,
        Option::Some(i1) => match spec_first_sep(s, i1 + 2) {
            Option::None => Option::None,
            Option::Some(i2) => {
                let name_end = match spec_first_sep(s, i2 + 2) {
                    Option::None => s.len() as int,
                    Option::Some(i3) => i3,
                };
                Option::Some(
                    (s.subrange(0, i1), s.subrange(i1 + 2, i2), s.subrange(i2 + 2, name_end)),
                )
            },
        },
    }
}

fn find_sep(s: &str, from: usize) -> (r: Option<usize>)
    requires
        from <= s@.len(),
    ensures
        match r {
            Option::Some(i) => spec_first_sep(s@, from as int) == Option::Some(i as int) && from
                <= i && i + 2 <= s@.len(),
            Option::None => spec_first_sep(s@, from as int) is None,
        },
{
    let n = s.unicode_len();
    let mut i: usize = from;
    while n >= 2 && i <= n - 2
        invariant
            n == s@.len(),
            from <= i,
            i <= n,
            spec_first_sep(s@, from as int) == spec_first_sep(s@, i as int),
        decreases n - i,
    {
        if s.get_char(i) == ':' && s.get_char(i + 1) == ':' {
            return Some(i);
        }
        assert(spec_first_sep(s@, i as int) == spec_first_sep(s@, i + 1));
        i = i + 1;
    }
    assert(spec_first_sep(s@, i as int) is None);
    None
}

/// Splits an event type into its address, module and name segments.
pub fn split_event_type(type_str: &str) -> (r: Option<(String, String, String)>)
    ensures
        r is Some <==> spec_split_event_type(type_str@) is Some,
        r is Some ==> {
            let (a, m, n) = spec_split_event_type(type_str@)->0;
            let t = r->0;
            t.0@ == a && t.1@ == m && t.2@ == n
        },
{
    let len = type_str.unicode_len();
    let i1 = match find_sep(type_str, 0) {
        Some(i) => i,
        None => {
            return None;
        },
    };
    let i2 = match find_sep(type_str, i1 + 2) {
        Some(i) => i,
        None => {
            return None;
        },
    };
    let name_end = match find_sep(type_str, i2 + 2) {
        Some(i3) => i3,
        None => len,
    };
    let addr = type_str.substring_char(0, i1).to_owned();
    let module = type_str.substring_char(i1 + 2, i2).to_owned();
    let name = type_str.substring_char(i2 + 2, name_end).to_owned();
    Some((addr, module, name))
}

/// The three contract families whose events are decoded.
pub enum EventDialect {
    AptosLabs,
    TradeportV1,
    TradeportV2,
}

/// The kind of marketplace event an event type names.
pub enum MarketplaceEventKind {
    BidPlaced,
    BidFilled,
    BidCancelled,
    AskPlaced,
    /// A price change; only Tradeport v1 emits it. It is decoded as a
    /// re-placed ask.
    AskUpdated,
    AskFilled,
    AskCancelled,
    CollectionBidPlaced,
    CollectionBidFilled,
    CollectionBidCancelled,
}

/// Classification under the Aptos-labs dialect: module `events`, the
/// enumerated type-name prefixes.
pub open spec fn spec_aptos_labs_kind(module: Seq<char>, name: Seq<char>) -> Option<
    MarketplaceEventKind,
> {
    if module != "events"@ {
        Option::None
    } else if spec_starts_with(name, "TokenOfferPlaced"@) {
        Option::Some(MarketplaceEventKind::BidPlaced)
    } else if spec_starts_with(name, "TokenOfferFilled"@) {
        Option::Some(MarketplaceEventKind::BidFilled)
    } else if spec_starts_with(name, "TokenOfferCancelled"@) || spec_starts_with(
        name,
        "TokenOfferCanceled"@,
    ) {
        Option::Some(MarketplaceEventKind::BidCancelled)
    } else if spec_starts_with(name, "ListingPlaced"@) {
        Option::Some(MarketplaceEventKind::AskPlaced)
    } else if spec_starts_with(name, "ListingFilled"@) {
        Option::Some(MarketplaceEventKind::AskFilled)
    } else if spec_starts_with(name, "ListingCancelled"@) || spec_starts_with(
        name,
        "ListingCanceled"@,
    ) {
        Option::Some(MarketplaceEventKind::AskCancelled)
    } else if spec_starts_with(name, "CollectionOfferPlaced"@) {
        Option::Some(MarketplaceEventKind::CollectionBidPlaced)
    } else if spec_starts_with(name, "CollectionOfferFilled"@) {
        Option::Some(MarketplaceEventKind::CollectionBidFilled)
    } else if spec_starts_with(name, "CollectionOfferCancelled"@) || spec_starts_with(
        name,
        "CollectionOfferCanceled"@,
    ) {
        Option::Some(MarketplaceEventKind::CollectionBidCancelled)
    } else {
        Option::None
    }
}

/// Classification under the Tradeport v1 dialect: modules `biddings` and
/// `listings`.
pub open spec fn spec_tradeport_v1_kind(module: Seq<char>, name: Seq<char>) -> Option<
    MarketplaceEventKind,
> {
    if module == "biddings"@ {
        if spec_starts_with(name, "InsertTokenBidEvent"@) {
            Option::Some(MarketplaceEventKind::BidPlaced)
        } else if spec_starts_with(name, "AcceptTokenBidEvent"@) {
            Option::Some(MarketplaceEventKind::BidFilled)
        } else if spec_starts_with(name, "DeleteTokenBidEvent"@) {
            Option::Some(MarketplaceEventKind::BidCancelled)
        } else if spec_starts_with(name, "InsertCollectionBidEvent"@) {
            Option::Some(MarketplaceEventKind::CollectionBidPlaced)
        } else if spec_starts_with(name, "AcceptCollectionBidEvent"@) {
            Option::Some(MarketplaceEventKind::CollectionBidFilled)
        } else if spec_starts_with(name, "DeleteCollectionBidEvent"@) {
            Option::Some(MarketplaceEventKind::CollectionBidCancelled)
        } else {
            Option::None
        }
    } else if module == "listings"@ {
        if spec_starts_with(name, "InsertListingEvent"@) {
            Option::Some(MarketplaceEventKind::AskPlaced)
        } else if spec_starts_with(name, "UpdateListingEvent"@) {
            Option::Some(MarketplaceEventKind::AskUpdated)
        } else if spec_starts_with(name, "BuyEvent"@) {
            Option::Some(MarketplaceEventKind::AskFilled)
        } else if spec_starts_with(name, "DeleteListingEvent"@) {
            Option::Some(MarketplaceEventKind::AskCancelled)
        } else {
            Option::None
        }
    } else {
        Option::None
    }
}

/// Classification under the Tradeport v2 dialect: modules `biddings_v2`
/// and `listings_v2`, same type names as v1 except the update event.
pub open spec fn spec_tradeport_v2_kind(module: Seq<char>, name: Seq<char>) -> Option<
    MarketplaceEventKind,
> {
    if module == "biddings_v2"@ {
        if spec_starts_with(name, "InsertTokenBidEvent"@) {
            Option::Some(MarketplaceEventKind::BidPlaced)
        } else if spec_starts_with(name, "AcceptTokenBidEvent"@) {
            Option::Some(MarketplaceEventKind::BidFilled)
        } else if spec_starts_with(name, "DeleteTokenBidEvent"@) {
            Option::Some(MarketplaceEventKind::BidCancelled)
        } else if spec_starts_with(name, "InsertCollectionBidEvent"@) {
            Option::Some(MarketplaceEventKind::CollectionBidPlaced)
        } else if spec_starts_with(name, "AcceptCollectionBidEvent"@) {
            Option::Some(MarketplaceEventKind::CollectionBidFilled)
        } else if spec_starts_with(name, "DeleteCollectionBidEvent"@) {
            Option::Some(MarketplaceEventKind::CollectionBidCancelled)
        } else {
            Option::None
        }
    } else if module == "listings_v2"@ {
        if spec_starts_with(name, "InsertListingEvent"@) {
            Option::Some(MarketplaceEventKind::AskPlaced)
        } else if spec_starts_with(name, "BuyEvent"@) {
            Option::Some(MarketplaceEventKind::AskFilled)
        } else if spec_starts_with(name, "DeleteListingEvent"@) {
            Option::Some(MarketplaceEventKind::AskCancelled)
        } else {
            Option::None
        }
    } else {
        Option::None
    }
}

/// Classification over all dialects, tried in the fixed order.
pub open spec fn spec_classify(module: Seq<char>, name: Seq<char>) -> Option<
    (EventDialect, MarketplaceEventKind),
> {
    if spec_aptos_labs_kind(module, name) is Some {
        Option::Some((EventDialect::AptosLabs, spec_aptos_labs_kind(module, name)->0))
    } else if spec_tradeport_v1_kind(module, name) is Some {
        Option::Some((EventDialect::TradeportV1, spec_tradeport_v1_kind(module, name)->0))
    } else if spec_tradeport_v2_kind(module, name) is Some {
        Option::Some((EventDialect::TradeportV2, spec_tradeport_v2_kind(module, name)->0))
    } else {
        Option::None
    }
}

fn aptos_labs_kind(module: &str, name: &str) -> (r: Option<MarketplaceEventKind>)
    ensures
        r == spec_aptos_labs_kind(module@, name@),
{
    if !str_eq(module, "events") {
        None
    } else if str_starts_with(name, "TokenOfferPlaced") {
        Some(MarketplaceEventKind::BidPlaced)
    } else if str_starts_with(name, "TokenOfferFilled") {
        Some(MarketplaceEventKind::BidFilled)
    } else if str_starts_with(name, "TokenOfferCancelled") || str_starts_with(
        name,
        "TokenOfferCanceled",
    ) {
        Some(MarketplaceEventKind::BidCancelled)
    } else if str_starts_with(name, "ListingPlaced") {
        Some(MarketplaceEventKind::AskPlaced)
    } else if str_starts_with(name, "ListingFilled") {
        Some(MarketplaceEventKind::AskFilled)
    } else if str_starts_with(name, "ListingCancelled") || str_starts_with(
        name,
        "ListingCanceled",
    ) {
        Some(MarketplaceEventKind::AskCancelled)
    } else if str_starts_with(name, "CollectionOfferPlaced") {
        Some(MarketplaceEventKind::CollectionBidPlaced)
    } else if str_starts_with(name, "CollectionOfferFilled") {
        Some(MarketplaceEventKind::CollectionBidFilled)
    } else if str_starts_with(name, "CollectionOfferCancelled") || str_starts_with(
        name,
        "CollectionOfferCanceled",
    ) {
        Some(MarketplaceEventKind::CollectionBidCancelled)
    } else {
        None
    }
}

fn tradeport_v1_kind(module: &str, name: &str) -> (r: Option<MarketplaceEventKind>)
    ensures
        r == spec_tradeport_v1_kind(module@, name@),
{
    if str_eq(module, "biddings") {
        if str_starts_with(name, "InsertTokenBidEvent") {
            Some(MarketplaceEventKind::BidPlaced)
        } else if str_starts_with(name, "AcceptTokenBidEvent") {
            Some(MarketplaceEventKind::BidFilled)
        } else if str_starts_with(name, "DeleteTokenBidEvent") {
            Some(MarketplaceEventKind::BidCancelled)
        } else if str_starts_with(name, "InsertCollectionBidEvent") {
            Some(MarketplaceEventKind::CollectionBidPlaced)
        } else if str_starts_with(name, "AcceptCollectionBidEvent") {
            Some(MarketplaceEventKind::CollectionBidFilled)
        } else if str_starts_with(name, "DeleteCollectionBidEvent") {
            Some(MarketplaceEventKind::CollectionBidCancelled)
        } else {
            None
        }
    } else if str_eq(module, "listings") {
        if str_starts_with(name, "InsertListingEvent") {
            Some(MarketplaceEventKind::AskPlaced)
        } else if str_starts_with(name, "UpdateListingEvent") {
            Some(MarketplaceEventKind::AskUpdated)
        } else if str_starts_with(name, "BuyEvent") {
            Some(MarketplaceEventKind::AskFilled)
        } else if str_starts_with(name, "DeleteListingEvent") {
            Some(MarketplaceEventKind::AskCancelled)
        } else {
            None
        }
    } else {
        None
    }
}

fn tradeport_v2_kind(module: &str, name: &str) -> (r: Option<MarketplaceEventKind>)
    ensures
        r == spec_tradeport_v2_kind(module@, name@),
{
    if str_eq(module, "biddings_v2") {
        if str_starts_with(name, "InsertTokenBidEvent") {
            Some(MarketplaceEventKind::BidPlaced)
        } else if str_starts_with(name, "AcceptTokenBidEvent") {
            Some(MarketplaceEventKind::BidFilled)
        } else if str_starts_with(name, "DeleteTokenBidEvent") {
            Some(MarketplaceEventKind::BidCancelled)
        } else if str_starts_with(name, "InsertCollectionBidEvent") {
            Some(MarketplaceEventKind::CollectionBidPlaced)
        } else if str_starts_with(name, "AcceptCollectionBidEvent") {
            Some(MarketplaceEventKind::CollectionBidFilled)
        } else if str_starts_with(name, "DeleteCollectionBidEvent") {
            Some(MarketplaceEventKind::CollectionBidCancelled)
        } else {
            None
        }
    } else if str_eq(module, "listings_v2") {
        if str_starts_with(name, "InsertListingEvent") {
            Some(MarketplaceEventKind::AskPlaced)
        } else if str_starts_with(name, "BuyEvent") {
            Some(MarketplaceEventKind::AskFilled)
        } else if str_starts_with(name, "DeleteListingEvent") {
            Some(MarketplaceEventKind::AskCancelled)
        } else {
            None
        }
    } else {
        None
    }
}

/// Tells dialect and kind from an event type's module and name segments.
/// Every type whose module and name match one of the enumerated patterns
/// is classified; everything else is refused, never silently mistaken.
pub fn classify_marketplace_event(module: &str, name: &str) -> (r: Option<
    (EventDialect, MarketplaceEventKind),
>)
    ensures
        r == spec_classify(module@, name@),
{
    if let Some(kind) = aptos_labs_kind(module, name) {
        Some((EventDialect::AptosLabs, kind))
    } else if let Some(kind) = tradeport_v1_kind(module, name) {
        Some((EventDialect::TradeportV1, kind))
    } else if let Some(kind) = tradeport_v2_kind(module, name) {
        Some((EventDialect::TradeportV2, kind))
    } else {
        None
    }
}

/// Whether the set of configured contract addresses holds this address.
pub fn contains_address(addrs: &Vec<String>, addr: &String) -> (r: bool)
    ensures
        r == exists|i: int| 0 <= i < addrs@.len() && addrs@[i]@ == addr@,
{
    let mut i: usize = 0;
    while i < addrs.len()
        invariant
            i <= addrs@.len(),
            forall|j: int| 0 <= j < i ==> addrs@[j]@ != addr@,
        decreases addrs@.len() - i,
    {
        if str_eq(addrs[i].as_str(), addr.as_str()) {
            return true;
        }
        i = i + 1;
    }
    false
}

/// A decoded marketplace event: the store rows it gives rise to.
pub enum ContractEvent {
    BidPlacedEvent((NftBid, Activity)),
    BidFilledEvent((NftBid, Activity)),
    BidCancelledEvent((NftBid, Activity)),
    AskPlacedEvent((NftAsk, Activity)),
    AskFilledEvent((NftAsk, Activity)),
    AskCancelledEvent((NftAsk, Activity)),
    CollectionBidPlacedEvent((CollectionBid, Activity)),
    CollectionBidFilledEvent((CollectionBid, FilledCollectionBid, Activity)),
    CollectionBidCancelledEvent((CollectionBid, Activity)),
}

/// The extraction stage's configuration: which contract addresses to
/// follow. Events of other contracts are dropped without decoding.
pub struct Extractor {
    pub contract_addresses: Vec<String>,
}

impl Extractor {
    /// An extractor that follows the given contract addresses.
    pub fn new(contract_addresses: Vec<String>) -> (r: Extractor)
        ensures
            r.contract_addresses@ == contract_addresses@,
    {
        Extractor { contract_addresses }
    }

    /// The stage's name.
    pub fn name(&self) -> (r: String)
        ensures
            r@ == "Extractor"@,
    {
        String::from_str("Extractor")
    }

    /// Splits and classifies one raw event type. Returns the
    /// standardized contract address together with dialect and kind
    /// exactly when the type has three segments, its address is in the
    /// configured set, and module and name match a known pattern.
    pub fn classify_event(&self, type_str: &str) -> (r: Option<
        (String, EventDialect, MarketplaceEventKind),
    >)
        ensures
            r is Some <==> spec_split_event_type(type_str@) is Some && ({
                let (a, m, n) = spec_split_event_type(type_str@)->0;
                &&& exists|i: int|
                    0 <= i < self.contract_addresses@.len() && self.contract_addresses@[i]@
                        == spec_standardize_address(a)
                &&& spec_classify(m, n) is Some
            }),
            r is Some ==> ({
                let (a, m, n) = spec_split_event_type(type_str@)->0;
                let t = r->0;
                &&& t.0@ == spec_standardize_address(a)
                &&& (t.1, t.2) == spec_classify(m, n)->0
            }),
    {
        let (addr_part, module, name) = match split_event_type(type_str) {
            Some(parts) => parts,
            None => {
                return None;
            },
        };
        let event_addr = standardize_address(addr_part.as_str());
        if !contains_address(&self.contract_addresses, &event_addr) {
            return None;
        }
        match classify_marketplace_event(module.as_str(), name.as_str()) {
            Some((dialect, kind)) => Some((event_addr, dialect, kind)),
            None => None,
        }
    }
}

} // verus!
