//! Rows of the relational store.
//!
//! Every mutable field group of a row carries a `(tx_version, event_idx)`
//! coordinate: the position of the event that wrote it. The pair is a
//! total order over observed events and is the sole ordering authority of
//! the store.

use vstd::prelude::*;

verus! {

/// An event coordinate: transaction version and event index.
pub open spec fn coord_lt(a: (i64, i64), b: (i64, i64)) -> bool {
    a.0 < b.0 || (a.0 == b.0 && a.1 < b.1)
}

/// Row of one listing order, from placed to filled or cancelled.
pub struct NftAsk {
    pub ask_obj_addr: String,
    pub nft_id: String,
    pub nft_name: String,
    pub collection_addr: String,
    pub collection_creator_addr: String,
    pub collection_name: String,
    pub nft_standard: i32,
    pub marketplace_addr: String,
    pub buyer_addr: String,
    pub seller_addr: String,
    pub price: i64,
    pub royalties: i64,
    pub commission: i64,
    pub payment_token: String,
    pub payment_token_type: i32,
    pub order_placed_timestamp: i64,
    pub order_placed_tx_version: i64,
    pub order_placed_event_idx: i64,
    pub order_filled_timestamp: i64,
    pub order_filled_tx_version: i64,
    pub order_filled_event_idx: i64,
    pub order_cancelled_timestamp: i64,
    pub order_cancelled_tx_version: i64,
    pub order_cancelled_event_idx: i64,
    pub order_status: i32,
    pub order_type: i32,
}

impl NftAsk {
    pub open spec fn placed_coord(self) -> (i64, i64) {
        (self.order_placed_tx_version, self.order_placed_event_idx)
    }

    pub open spec fn filled_coord(self) -> (i64, i64) {
        (self.order_filled_tx_version, self.order_filled_event_idx)
    }

    pub open spec fn cancelled_coord(self) -> (i64, i64) {
        (self.order_cancelled_tx_version, self.order_cancelled_event_idx)
    }
}

/// Row of one single-NFT bid, from placed to filled or cancelled.
pub struct NftBid {
    pub bid_obj_addr: String,
    pub nft_id: String,
    pub nft_name: String,
    pub collection_addr: String,
    pub collection_creator_addr: String,
    pub collection_name: String,
    pub nft_standard: i32,
    pub marketplace_addr: String,
    pub buyer_addr: String,
    pub seller_addr: String,
    pub price: i64,
    pub royalties: i64,
    pub commission: i64,
    pub payment_token: String,
    pub payment_token_type: i32,
    pub order_placed_timestamp: i64,
    pub order_placed_tx_version: i64,
    pub order_placed_event_idx: i64,
    pub order_filled_timestamp: i64,
    pub order_filled_tx_version: i64,
    pub order_filled_event_idx: i64,
    pub order_cancelled_timestamp: i64,
    pub order_cancelled_tx_version: i64,
    pub order_cancelled_event_idx: i64,
    pub order_status: i32,
    pub order_expiration_timestamp: i64,
}

impl NftBid {
    pub open spec fn placed_coord(self) -> (i64, i64) {
        (self.order_placed_tx_version, self.order_placed_event_idx)
    }

    pub open spec fn filled_coord(self) -> (i64, i64) {
        (self.order_filled_tx_version, self.order_filled_event_idx)
    }

    pub open spec fn cancelled_coord(self) -> (i64, i64) {
        (self.order_cancelled_tx_version, self.order_cancelled_event_idx)
    }
}

/// Row of one collection-wide bid. A fill does not end it: only the
/// latest fill coordinate advances, since the bid may fill many times.
pub struct CollectionBid {
    pub bid_obj_addr: String,
    pub collection_addr: String,
    pub collection_creator_addr: String,
    pub collection_name: String,
    pub nft_standard: i32,
    pub marketplace_addr: String,
    pub buyer_addr: String,
    pub total_nft_amount: i64,
    pub price: i64,
    pub payment_token: String,
    pub payment_token_type: i32,
    pub order_placed_timestamp: i64,
    pub order_placed_tx_version: i64,
    pub order_placed_event_idx: i64,
    pub latest_order_filled_timestamp: i64,
    pub latest_order_filled_tx_version: i64,
    pub latest_order_filled_event_idx: i64,
    pub order_cancelled_timestamp: i64,
    pub order_cancelled_tx_version: i64,
    pub order_cancelled_event_idx: i64,
    pub order_status: i32,
    pub order_expiration_timestamp: i64,
}

impl CollectionBid {
    pub open spec fn placed_coord(self) -> (i64, i64) {
        (self.order_placed_tx_version, self.order_placed_event_idx)
    }

    pub open spec fn latest_filled_coord(self) -> (i64, i64) {
        (self.latest_order_filled_tx_version, self.latest_order_filled_event_idx)
    }

    pub open spec fn cancelled_coord(self) -> (i64, i64) {
        (self.order_cancelled_tx_version, self.order_cancelled_event_idx)
    }
}

/// One concrete fill of a collection bid; append-only per
/// `(bid_obj_addr, nft_id, nft_name)`.
pub struct FilledCollectionBid {
    pub bid_obj_addr: String,
    pub nft_id: String,
    pub nft_name: String,
    pub seller_addr: String,
    pub price: i64,
    pub royalties: i64,
    pub commission: i64,
    pub order_filled_timestamp: i64,
    pub order_filled_tx_version: i64,
    pub order_filled_event_idx: i64,
}

impl FilledCollectionBid {
    pub open spec fn filled_coord(self) -> (i64, i64) {
        (self.order_filled_tx_version, self.order_filled_event_idx)
    }
}

/// Immutable audit row written for every observed domain event, keyed by
/// the event's coordinate.
pub struct Activity {
    pub nft_id: String,
    pub nft_name: String,
    pub collection_addr: String,
    pub collection_creator_addr: String,
    pub collection_name: String,
    pub nft_standard: i32,
    pub marketplace_addr: String,
    pub buyer_addr: String,
    pub seller_addr: String,
    pub price: i64,
    pub royalties: i64,
    pub commission: i64,
    pub payment_token: String,
    pub payment_token_type: i32,
    pub activity_timestamp: i64,
    pub activity_tx_version: i64,
    pub activity_event_idx: i64,
    pub activity_type: i32,
}

impl Activity {
    pub open spec fn coord(self) -> (i64, i64) {
        (self.activity_tx_version, self.activity_event_idx)
    }
}

/// One module version inside a package upgrade.
pub struct ModuleUpgrade {
    pub module_addr: String,
    pub module_name: String,
    pub package_name: String,
    pub upgrade_number: i64,
    pub module_bytecode: Vec<u8>,
    pub module_source_code: String,
    pub module_abi: String,
    pub tx_version: i64,
}

/// One package version published at an address.
pub struct PackageUpgrade {
    pub package_addr: String,
    pub package_name: String,
    pub upgrade_number: i64,
    pub upgrade_policy: i32,
    pub package_manifest: String,
    pub source_digest: String,
    pub tx_version: i64,
}

/// Watermark row of one processor: the highest transaction version whose
/// effects are durably committed.
pub struct ProcessorStatus {
    pub processor: String,
    pub last_success_version: i64,
    pub last_transaction_timestamp: Option<i64>,
}

/// Watermark row as read back from the store.
pub struct ProcessorStatusQuery {
    pub processor: String,
    pub last_success_version: i64,
    pub last_updated: i64,
    pub last_transaction_timestamp: Option<i64>,
}

/// Singleton row that pins the chain the store indexes.
pub struct LedgerInfo {
    pub chain_id: i64,
}

/// Mathematical model of an ask row: its fields as plain spec values.
pub ghost struct NftAskModel {
    pub ask_obj_addr: Seq<char>,
    pub nft_id: Seq<char>,
    pub nft_name: Seq<char>,
    pub collection_addr: Seq<char>,
    pub collection_creator_addr: Seq<char>,
    pub collection_name: Seq<char>,
    pub nft_standard: i32,
    pub marketplace_addr: Seq<char>,
    pub buyer_addr: Seq<char>,
    pub seller_addr: Seq<char>,
    pub price: i64,
    pub royalties: i64,
    pub commission: i64,
    pub payment_token: Seq<char>,
    pub payment_token_type: i32,
    pub order_placed_timestamp: i64,
    pub order_placed_tx_version: i64,
    pub order_placed_event_idx: i64,
    pub order_filled_timestamp: i64,
    pub order_filled_tx_version: i64,
    pub order_filled_event_idx: i64,
    pub order_cancelled_timestamp: i64,
    pub order_cancelled_tx_version: i64,
    pub order_cancelled_event_idx: i64,
    pub order_status: i32,
    pub order_type: i32,
}

impl NftAskModel {
    pub open spec fn placed_coord(self) -> (i64, i64) {
        (self.order_placed_tx_version, self.order_placed_event_idx)
    }

    pub open spec fn filled_coord(self) -> (i64, i64) {
        (self.order_filled_tx_version, self.order_filled_event_idx)
    }

    pub open spec fn cancelled_coord(self) -> (i64, i64) {
        (self.order_cancelled_tx_version, self.order_cancelled_event_idx)
    }
}

impl View for NftAsk {
    type V = NftAskModel;

    open spec fn view(&self) -> NftAskModel {
        NftAskModel {
            ask_obj_addr: self.ask_obj_addr@,
            nft_id: self.nft_id@,
            nft_name: self.nft_name@,
            collection_addr: self.collection_addr@,
            collection_creator_addr: self.collection_creator_addr@,
            collection_name: self.collection_name@,
            nft_standard: self.nft_standard,
            marketplace_addr: self.marketplace_addr@,
            buyer_addr: self.buyer_addr@,
            seller_addr: self.seller_addr@,
            price: self.price,
            royalties: self.royalties,
            commission: self.commission,
            payment_token: self.payment_token@,
            payment_token_type: self.payment_token_type,
            order_placed_timestamp: self.order_placed_timestamp,
            order_placed_tx_version: self.order_placed_tx_version,
            order_placed_event_idx: self.order_placed_event_idx,
            order_filled_timestamp: self.order_filled_timestamp,
            order_filled_tx_version: self.order_filled_tx_version,
            order_filled_event_idx: self.order_filled_event_idx,
            order_cancelled_timestamp: self.order_cancelled_timestamp,
            order_cancelled_tx_version: self.order_cancelled_tx_version,
            order_cancelled_event_idx: self.order_cancelled_event_idx,
            order_status: self.order_status,
            order_type: self.order_type,
        }
    }
}

impl DeepView for NftAsk {
    type V = NftAskModel;

    open spec fn deep_view(&self) -> NftAskModel {
        self.view()
    }
}

/// Mathematical model of a bid row.
pub ghost struct NftBidModel {
    pub bid_obj_addr: Seq<char>,
    pub nft_id: Seq<char>,
    pub nft_name: Seq<char>,
    pub collection_addr: Seq<char>,
    pub collection_creator_addr: Seq<char>,
    pub collection_name: Seq<char>,
    pub nft_standard: i32,
    pub marketplace_addr: Seq<char>,
    pub buyer_addr: Seq<char>,
    pub seller_addr: Seq<char>,
    pub price: i64,
    pub royalties: i64,
    pub commission: i64,
    pub payment_token: Seq<char>,
    pub payment_token_type: i32,
    pub order_placed_timestamp: i64,
    pub order_placed_tx_version: i64,
    pub order_placed_event_idx: i64,
    pub order_filled_timestamp: i64,
    pub order_filled_tx_version: i64,
    pub order_filled_event_idx: i64,
    pub order_cancelled_timestamp: i64,
    pub order_cancelled_tx_version: i64,
    pub order_cancelled_event_idx: i64,
    pub order_status: i32,
    pub order_expiration_timestamp: i64,
}

impl NftBidModel {
    pub open spec fn placed_coord(self) -> (i64, i64) {
        (self.order_placed_tx_version, self.order_placed_event_idx)
    }

    pub open spec fn filled_coord(self) -> (i64, i64) {
        (self.order_filled_tx_version, self.order_filled_event_idx)
    }

    pub open spec fn cancelled_coord(self) -> (i64, i64) {
        (self.order_cancelled_tx_version, self.order_cancelled_event_idx)
    }
}

impl View for NftBid {
    type V = NftBidModel;

    open spec fn view(&self) -> NftBidModel {
        NftBidModel {
            bid_obj_addr: self.bid_obj_addr@,
            nft_id: self.nft_id@,
            nft_name: self.nft_name@,
            collection_addr: self.collection_addr@,
            collection_creator_addr: self.collection_creator_addr@,
            collection_name: self.collection_name@,
            nft_standard: self.nft_standard,
            marketplace_addr: self.marketplace_addr@,
            buyer_addr: self.buyer_addr@,
            seller_addr: self.seller_addr@,
            price: self.price,
            royalties: self.royalties,
            commission: self.commission,
            payment_token: self.payment_token@,
            payment_token_type: self.payment_token_type,
            order_placed_timestamp: self.order_placed_timestamp,
            order_placed_tx_version: self.order_placed_tx_version,
            order_placed_event_idx: self.order_placed_event_idx,
            order_filled_timestamp: self.order_filled_timestamp,
            order_filled_tx_version: self.order_filled_tx_version,
            order_filled_event_idx: self.order_filled_event_idx,
            order_cancelled_timestamp: self.order_cancelled_timestamp,
            order_cancelled_tx_version: self.order_cancelled_tx_version,
            order_cancelled_event_idx: self.order_cancelled_event_idx,
            order_status: self.order_status,
            order_expiration_timestamp: self.order_expiration_timestamp,
        }
    }
}

impl DeepView for NftBid {
    type V = NftBidModel;

    open spec fn deep_view(&self) -> NftBidModel {
        self.view()
    }
}

/// Mathematical model of a collection-bid row.
pub ghost struct CollectionBidModel {
    pub bid_obj_addr: Seq<char>,
    pub collection_addr: Seq<char>,
    pub collection_creator_addr: Seq<char>,
    pub collection_name: Seq<char>,
    pub nft_standard: i32,
    pub marketplace_addr: Seq<char>,
    pub buyer_addr: Seq<char>,
    pub total_nft_amount: i64,
    pub price: i64,
    pub payment_token: Seq<char>,
    pub payment_token_type: i32,
    pub order_placed_timestamp: i64,
    pub order_placed_tx_version: i64,
    pub order_placed_event_idx: i64,
    pub latest_order_filled_timestamp: i64,
    pub latest_order_filled_tx_version: i64,
    pub latest_order_filled_event_idx: i64,
    pub order_cancelled_timestamp: i64,
    pub order_cancelled_tx_version: i64,
    pub order_cancelled_event_idx: i64,
    pub order_status: i32,
    pub order_expiration_timestamp: i64,
}

impl CollectionBidModel {
    pub open spec fn placed_coord(self) -> (i64, i64) {
        (self.order_placed_tx_version, self.order_placed_event_idx)
    }

    pub open spec fn latest_filled_coord(self) -> (i64, i64) {
        (self.latest_order_filled_tx_version, self.latest_order_filled_event_idx)
    }

    pub open spec fn cancelled_coord(self) -> (i64, i64) {
        (self.order_cancelled_tx_version, self.order_cancelled_event_idx)
    }
}

impl View for CollectionBid {
    type V = CollectionBidModel;

    open spec fn view(&self) -> CollectionBidModel {
        CollectionBidModel {
            bid_obj_addr: self.bid_obj_addr@,
            collection_addr: self.collection_addr@,
            collection_creator_addr: self.collection_creator_addr@,
            collection_name: self.collection_name@,
            nft_standard: self.nft_standard,
            marketplace_addr: self.marketplace_addr@,
            buyer_addr: self.buyer_addr@,
            total_nft_amount: self.total_nft_amount,
            price: self.price,
            payment_token: self.payment_token@,
            payment_token_type: self.payment_token_type,
            order_placed_timestamp: self.order_placed_timestamp,
            order_placed_tx_version: self.order_placed_tx_version,
            order_placed_event_idx: self.order_placed_event_idx,
            latest_order_filled_timestamp: self.latest_order_filled_timestamp,
            latest_order_filled_tx_version: self.latest_order_filled_tx_version,
            latest_order_filled_event_idx: self.latest_order_filled_event_idx,
            order_cancelled_timestamp: self.order_cancelled_timestamp,
            order_cancelled_tx_version: self.order_cancelled_tx_version,
            order_cancelled_event_idx: self.order_cancelled_event_idx,
            order_status: self.order_status,
            order_expiration_timestamp: self.order_expiration_timestamp,
        }
    }
}

impl DeepView for CollectionBid {
    type V = CollectionBidModel;

    open spec fn deep_view(&self) -> CollectionBidModel {
        self.view()
    }
}

/// Mathematical model of a collection-bid fill row.
pub ghost struct FilledCollectionBidModel {
    pub bid_obj_addr: Seq<char>,
    pub nft_id: Seq<char>,
    pub nft_name: Seq<char>,
    pub seller_addr: Seq<char>,
    pub price: i64,
    pub royalties: i64,
    pub commission: i64,
    pub order_filled_timestamp: i64,
    pub order_filled_tx_version: i64,
    pub order_filled_event_idx: i64,
}

impl FilledCollectionBidModel {
    /// The conflict key: the parent bid and the NFT that filled it.
    pub open spec fn key(self) -> (Seq<char>, Seq<char>, Seq<char>) {
        (self.bid_obj_addr, self.nft_id, self.nft_name)
    }

    pub open spec fn filled_coord(self) -> (i64, i64) {
        (self.order_filled_tx_version, self.order_filled_event_idx)
    }
}

impl View for FilledCollectionBid {
    type V = FilledCollectionBidModel;

    open spec fn view(&self) -> FilledCollectionBidModel {
        FilledCollectionBidModel {
            bid_obj_addr: self.bid_obj_addr@,
            nft_id: self.nft_id@,
            nft_name: self.nft_name@,
            seller_addr: self.seller_addr@,
            price: self.price,
            royalties: self.royalties,
            commission: self.commission,
            order_filled_timestamp: self.order_filled_timestamp,
            order_filled_tx_version: self.order_filled_tx_version,
            order_filled_event_idx: self.order_filled_event_idx,
        }
    }
}

impl DeepView for FilledCollectionBid {
    type V = FilledCollectionBidModel;

    open spec fn deep_view(&self) -> FilledCollectionBidModel {
        self.view()
    }
}

/// Mathematical model of an activity row.
pub ghost struct ActivityModel {
    pub nft_id: Seq<char>,
    pub nft_name: Seq<char>,
    pub collection_addr: Seq<char>,
    pub collection_creator_addr: Seq<char>,
    pub collection_name: Seq<char>,
    pub nft_standard: i32,
    pub marketplace_addr: Seq<char>,
    pub buyer_addr: Seq<char>,
    pub seller_addr: Seq<char>,
    pub price: i64,
    pub royalties: i64,
    pub commission: i64,
    pub payment_token: Seq<char>,
    pub payment_token_type: i32,
    pub activity_timestamp: i64,
    pub activity_tx_version: i64,
    pub activity_event_idx: i64,
    pub activity_type: i32,
}

impl ActivityModel {
    pub open spec fn coord(self) -> (i64, i64) {
        (self.activity_tx_version, self.activity_event_idx)
    }
}

impl View for Activity {
    type V = ActivityModel;

    open spec fn view(&self) -> ActivityModel {
        ActivityModel {
            nft_id: self.nft_id@,
            nft_name: self.nft_name@,
            collection_addr: self.collection_addr@,
            collection_creator_addr: self.collection_creator_addr@,
            collection_name: self.collection_name@,
            nft_standard: self.nft_standard,
            marketplace_addr: self.marketplace_addr@,
            buyer_addr: self.buyer_addr@,
            seller_addr: self.seller_addr@,
            price: self.price,
            royalties: self.royalties,
            commission: self.commission,
            payment_token: self.payment_token@,
            payment_token_type: self.payment_token_type,
            activity_timestamp: self.activity_timestamp,
            activity_tx_version: self.activity_tx_version,
            activity_event_idx: self.activity_event_idx,
            activity_type: self.activity_type,
        }
    }
}

impl DeepView for Activity {
    type V = ActivityModel;

    open spec fn deep_view(&self) -> ActivityModel {
        self.view()
    }
}

/// Mathematical model of a module-upgrade row.
pub ghost struct ModuleUpgradeModel {
    pub module_addr: Seq<char>,
    pub module_name: Seq<char>,
    pub package_name: Seq<char>,
    pub upgrade_number: i64,
    pub module_bytecode: Seq<u8>,
    pub module_source_code: Seq<char>,
    pub module_abi: Seq<char>,
    pub tx_version: i64,
}

impl ModuleUpgradeModel {
    /// The conflict key: address, module, package and upgrade number.
    pub open spec fn key(self) -> (Seq<char>, Seq<char>, Seq<char>, i64) {
        (self.module_addr, self.module_name, self.package_name, self.upgrade_number)
    }
}

impl View for ModuleUpgrade {
    type V = ModuleUpgradeModel;

    open spec fn view(&self) -> ModuleUpgradeModel {
        ModuleUpgradeModel {
            module_addr: self.module_addr@,
            module_name: self.module_name@,
            package_name: self.package_name@,
            upgrade_number: self.upgrade_number,
            module_bytecode: self.module_bytecode@,
            module_source_code: self.module_source_code@,
            module_abi: self.module_abi@,
            tx_version: self.tx_version,
        }
    }
}

impl DeepView for ModuleUpgrade {
    type V = ModuleUpgradeModel;

    open spec fn deep_view(&self) -> ModuleUpgradeModel {
        self.view()
    }
}

/// Mathematical model of a package-upgrade row.
pub ghost struct PackageUpgradeModel {
    pub package_addr: Seq<char>,
    pub package_name: Seq<char>,
    pub upgrade_number: i64,
    pub upgrade_policy: i32,
    pub package_manifest: Seq<char>,
    pub source_digest: Seq<char>,
    pub tx_version: i64,
}

impl PackageUpgradeModel {
    /// The conflict key: address, package and upgrade number.
    pub open spec fn key(self) -> (Seq<char>, Seq<char>, i64) {
        (self.package_addr, self.package_name, self.upgrade_number)
    }
}

impl View for PackageUpgrade {
    type V = PackageUpgradeModel;

    open spec fn view(&self) -> PackageUpgradeModel {
        PackageUpgradeModel {
            package_addr: self.package_addr@,
            package_name: self.package_name@,
            upgrade_number: self.upgrade_number,
            upgrade_policy: self.upgrade_policy,
            package_manifest: self.package_manifest@,
            source_digest: self.source_digest@,
            tx_version: self.tx_version,
        }
    }
}

impl DeepView for PackageUpgrade {
    type V = PackageUpgradeModel;

    open spec fn deep_view(&self) -> PackageUpgradeModel {
        self.view()
    }
}

/// Mathematical model of a watermark row.
pub ghost struct ProcessorStatusModel {
    pub processor: Seq<char>,
    pub last_success_version: i64,
    pub last_transaction_timestamp: Option<i64>,
}

impl View for ProcessorStatus {
    type V = ProcessorStatusModel;

    open spec fn view(&self) -> ProcessorStatusModel {
        ProcessorStatusModel {
            processor: self.processor@,
            last_success_version: self.last_success_version,
            last_transaction_timestamp: self.last_transaction_timestamp,
        }
    }
}

impl DeepView for ProcessorStatus {
    type V = ProcessorStatusModel;

    open spec fn deep_view(&self) -> ProcessorStatusModel {
        self.view()
    }
}

} // verus!
