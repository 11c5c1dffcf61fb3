use nft_indexer::upgrades::{
    select_package_registry_writes, ContractUpgradeChange, ModuleOnChain, ModuleWriteOnChain,
    PackageOnChain, PackageUpgradeChangeOnChain, ResourceWriteOnChain, Storer,
    UpgradePolicyOnChain,
};

fn padded(digits: &str) -> String {
    let mut s = String::from("0x");
    for _ in 0..(64 - digits.len()) {
        s.push('0');
    }
    s.push_str(digits);
    s
}

fn package(name: &str, upgrade_number: &str, modules: Vec<&str>) -> PackageOnChain {
    PackageOnChain {
        name: name.to_string(),
        upgrade_number: upgrade_number.to_string(),
        upgrade_policy: UpgradePolicyOnChain { policy: 1 },
        manifest: "manifest".to_string(),
        source_digest: "digest".to_string(),
        modules: modules
            .into_iter()
            .map(|m| ModuleOnChain { name: m.to_string(), source: format!("src-{}", m) })
            .collect(),
    }
}

fn module_write(addr: &str, name: &str, byte: u8) -> ModuleWriteOnChain {
    ModuleWriteOnChain {
        address: addr.to_string(),
        module_name: name.to_string(),
        bytecode: vec![byte],
        abi_json: format!("{{\"name\":\"{}\"}}", name),
    }
}

#[test]
fn registry_writes_are_selected_by_address_and_type() {
    let addrs = vec![padded("a")];
    let resources = vec![
        ResourceWriteOnChain {
            address: "0xA".to_string(),
            type_str: "0x1::code::PackageRegistry".to_string(),
            data: "one".to_string(),
        },
        ResourceWriteOnChain {
            address: "0xA".to_string(),
            type_str: "0x1::coin::CoinStore".to_string(),
            data: "two".to_string(),
        },
        ResourceWriteOnChain {
            address: "0xB".to_string(),
            type_str: "0x1::code::PackageRegistry".to_string(),
            data: "three".to_string(),
        },
    ];
    let selected = select_package_registry_writes(&addrs, &resources);
    assert_eq!(selected.len(), 1);
    assert_eq!(selected[0].0, padded("a"));
    assert_eq!(selected[0].1, "one");
}

#[test]
fn from_changes_joins_manifest_modules_against_writes() {
    let writes = vec![module_write("0xA", "alpha", 1), module_write("0xA", "beta", 2)];
    let changes = vec![(
        padded("a"),
        PackageUpgradeChangeOnChain {
            packages: vec![package("pkg", "3", vec!["alpha", "beta", "gamma"])],
        },
    )];
    let rows = ContractUpgradeChange::from_changes(7, &writes, &changes).unwrap();
    // gamma has no module write: unchanged by a republish, skipped.
    assert_eq!(rows.len(), 3);
    match &rows[0] {
        ContractUpgradeChange::ModuleUpgradeChange(m) => {
            assert_eq!(m.module_addr, padded("a"));
            assert_eq!(m.module_name, "alpha");
            assert_eq!(m.package_name, "pkg");
            assert_eq!(m.upgrade_number, 3);
            assert_eq!(m.module_bytecode, vec![1]);
            assert_eq!(m.module_source_code, "src-alpha");
            assert_eq!(m.tx_version, 7);
        },
        _ => panic!("expected a module upgrade first"),
    }
    match &rows[1] {
        ContractUpgradeChange::ModuleUpgradeChange(m) => {
            assert_eq!(m.module_name, "beta");
            assert_eq!(m.module_bytecode, vec![2]);
        },
        _ => panic!("expected a module upgrade second"),
    }
    match &rows[2] {
        ContractUpgradeChange::PackageUpgradeChange(p) => {
            assert_eq!(p.package_addr, padded("a"));
            assert_eq!(p.package_name, "pkg");
            assert_eq!(p.upgrade_number, 3);
            assert_eq!(p.upgrade_policy, 1);
            assert_eq!(p.source_digest, "digest");
        },
        _ => panic!("expected the package upgrade last"),
    }
}

#[test]
fn from_changes_rejects_a_bad_upgrade_number() {
    let changes = vec![(
        padded("a"),
        PackageUpgradeChangeOnChain { packages: vec![package("pkg", "soon", vec![])] },
    )];
    assert!(ContractUpgradeChange::from_changes(7, &vec![], &changes).is_err());
}

#[test]
fn a_later_module_write_shadows_an_earlier_one() {
    let writes = vec![module_write("0xA", "alpha", 1), module_write("0xA", "alpha", 9)];
    let changes = vec![(
        padded("a"),
        PackageUpgradeChangeOnChain { packages: vec![package("pkg", "0", vec!["alpha"])] },
    )];
    let rows = ContractUpgradeChange::from_changes(7, &writes, &changes).unwrap();
    match &rows[0] {
        ContractUpgradeChange::ModuleUpgradeChange(m) => {
            assert_eq!(m.module_bytecode, vec![9]);
        },
        _ => panic!("expected a module upgrade"),
    }
}

#[test]
fn upgrade_storer_upserts_by_key() {
    let writes = vec![module_write("0xA", "alpha", 1)];
    let changes = vec![(
        padded("a"),
        PackageUpgradeChangeOnChain { packages: vec![package("pkg", "0", vec!["alpha"])] },
    )];
    let rows = ContractUpgradeChange::from_changes(7, &writes, &changes).unwrap();
    let mut storer = Storer::new();
    storer.process(rows);
    assert_eq!(storer.store.module_upgrades.len(), 1);
    assert_eq!(storer.store.package_upgrades.len(), 1);
    // A replay of the same batch rewrites the same rows.
    let rows_again = ContractUpgradeChange::from_changes(7, &writes, &changes).unwrap();
    storer.process(rows_again);
    assert_eq!(storer.store.module_upgrades.len(), 1);
    assert_eq!(storer.store.package_upgrades.len(), 1);
}
