use nft_indexer::config::{CustomConfig, DbConfig};
use nft_indexer::models::{LedgerInfo, ProcessorStatus, ProcessorStatusQuery};
use nft_indexer::progress::{
    check_or_update_chain_id, resolve_starting_version, ProcessorStatusStore,
};

fn status(name: &str, version: i64) -> ProcessorStatus {
    ProcessorStatus {
        processor: name.to_string(),
        last_success_version: version,
        last_transaction_timestamp: None,
    }
}

#[test]
fn watermark_upsert_inserts_and_overwrites() {
    let mut store = ProcessorStatusStore::new();
    assert!(store.get_by_processor("marketplace").is_none());
    store.upsert(status("marketplace", 10));
    assert_eq!(store.get_by_processor("marketplace").unwrap().last_success_version, 10);
    store.upsert(status("marketplace", 25));
    assert_eq!(store.get_by_processor("marketplace").unwrap().last_success_version, 25);
}

#[test]
fn watermark_never_decreases_across_commits() {
    // Batches reach the tracker in version order; each commit writes a
    // version at least as high as the one before.
    let mut store = ProcessorStatusStore::new();
    let mut previous = 0;
    for version in [5, 9, 9, 14] {
        store.upsert(status("marketplace", version));
        let stored = store.get_by_processor("marketplace").unwrap().last_success_version;
        assert!(stored >= previous);
        previous = stored;
    }
}

#[test]
fn processors_do_not_share_watermarks() {
    let mut store = ProcessorStatusStore::new();
    store.upsert(status("marketplace", 10));
    store.upsert(status("upgrades", 3));
    assert_eq!(store.get_by_processor("marketplace").unwrap().last_success_version, 10);
    assert_eq!(store.get_by_processor("upgrades").unwrap().last_success_version, 3);
}

#[test]
fn starting_version_resumes_above_the_watermark() {
    let row = ProcessorStatusQuery {
        processor: "marketplace".to_string(),
        last_success_version: 41,
        last_updated: 0,
        last_transaction_timestamp: None,
    };
    assert_eq!(resolve_starting_version(0, Some(&row)), 42);
    assert_eq!(resolve_starting_version(100, Some(&row)), 100);
    assert_eq!(resolve_starting_version(7, None), 7);
}

#[test]
fn chain_id_is_established_on_first_contact() {
    let r = check_or_update_chain_id(None, 4).unwrap();
    assert_eq!(r.chain_id, 4);
}

#[test]
fn matching_chain_id_passes() {
    let stored = LedgerInfo { chain_id: 4 };
    assert!(check_or_update_chain_id(Some(&stored), 4).is_ok());
}

#[test]
fn mismatched_chain_id_refuses_to_start() {
    let stored = LedgerInfo { chain_id: 4 };
    assert!(check_or_update_chain_id(Some(&stored), 5).is_err());
}

#[test]
fn default_pool_size_is_fifty() {
    assert_eq!(DbConfig::default_db_pool_size(), 50);
}

#[test]
fn custom_config_carries_the_followed_contracts() {
    let upgrade = CustomConfig::ContractUpgradeIndexer(vec!["0x1".to_string()]);
    match upgrade {
        CustomConfig::ContractUpgradeIndexer(addrs) => assert_eq!(addrs.len(), 1),
        CustomConfig::MarketplaceIndexer(_) => panic!("expected the upgrade flavor"),
    }
    let marketplace = CustomConfig::MarketplaceIndexer("0xm".to_string());
    match marketplace {
        CustomConfig::MarketplaceIndexer(addr) => assert_eq!(addr, "0xm"),
        CustomConfig::ContractUpgradeIndexer(_) => panic!("expected the marketplace flavor"),
    }
}
