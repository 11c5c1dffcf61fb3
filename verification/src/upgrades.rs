//! The contract-upgrade indexer: decoding package and module upgrades
//! from a transaction's write-set changes.
//!
//! A `PackageRegistry` resource write at a followed address describes the
//! packages published there; a module write carries the new bytecode. A
//! module listed in a package's manifest without a matching module write
//! was unchanged by a same-address republish and is skipped silently.

use vstd::prelude::*;

use crate::address::{spec_standardize_address, standardize_address};
use crate::decode::{parse_i64, spec_decimal_value, spec_parses, DecodeError};
use crate::models::{ModuleUpgrade, ModuleUpgradeModel, PackageUpgrade, PackageUpgradeModel};
use crate::text::str_eq;

verus! {

/// The upgrade policy of an on-chain package.
pub struct UpgradePolicyOnChain {
    pub policy: i32,
}

/// One module listed in an on-chain package manifest.
pub struct ModuleOnChain {
    pub name: String,
    pub source: String,
}

/// One package recorded in a `PackageRegistry` resource.
pub struct PackageOnChain {
    pub name: String,
    pub upgrade_number: String,
    pub upgrade_policy: UpgradePolicyOnChain,
    pub manifest: String,
    pub source_digest: String,
    pub modules: Vec<ModuleOnChain>,
}

/// The decoded `PackageRegistry` resource: the packages at one address.
pub struct PackageUpgradeChangeOnChain {
    pub packages: Vec<PackageOnChain>,
}

/// One module write from a transaction's write-set.
pub struct ModuleWriteOnChain {
    pub address: String,
    pub module_name: String,
    pub bytecode: Vec<u8>,
    pub abi_json: String,
}

/// One resource write from a transaction's write-set.
pub struct ResourceWriteOnChain {
    pub address: String,
    pub type_str: String,
    pub data: String,
}

/// Whether the set of followed addresses holds this one.
pub open spec fn spec_addr_in_set(addrs: Seq<String>, a: Seq<char>) -> bool {
    exists|i: int| 0 <= i < addrs.len() && addrs[i]@ == a
}

/// The package-registry writes a batch of resource writes holds for the
/// followed addresses: standardized address and raw payload, in order.
pub open spec fn spec_selected_registry_writes(
    addrs: Seq<String>,
    rs: Seq<ResourceWriteOnChain>,
) -> Seq<(Seq<char>, Seq<char>)>
    decreases rs.len(),
{
    if rs.len() == 0 {
        Seq::empty()
    } else {
        let init = spec_selected_registry_writes(addrs, rs.drop_last());
        let r = rs.last();
        if spec_addr_in_set(addrs, spec_standardize_address(r.address@)) && r.type_str@
            == "0x1::code::PackageRegistry"@ {
            init.push((spec_standardize_address(r.address@), r.data@))
        } else {
            init
        }
    }
}

fn addr_in_set(addrs: &Vec<String>, a: &String) -> (r: bool)
    ensures
        r == spec_addr_in_set(addrs@, a@),
{
    let mut i: usize = 0;
    while i < addrs.len()
        invariant
            i <= addrs@.len(),
            forall|j: int| 0 <= j < i ==> addrs@[j]@ != a@,
        decreases addrs@.len() - i,
    {
        if str_eq(addrs[i].as_str(), a.as_str()) {
            return true;
        }
        i = i + 1;
    }
    false
}

/// Picks out the `PackageRegistry` writes at followed addresses: the
/// standardized address and the raw resource payload of each, in order.
pub fn select_package_registry_writes(
    contract_addresses: &Vec<String>,
    resources: &Vec<ResourceWriteOnChain>,
) -> (r: Vec<(String, String)>)
    ensures
        r.deep_view() == spec_selected_registry_writes(contract_addresses@, resources@),
{
    let mut out: Vec<(String, String)> = Vec::new();
    let mut i: usize = 0;
    proof {
        assert(resources@.take(0) =~= Seq::<ResourceWriteOnChain>::empty());
    }
    while i < resources.len()
        invariant
            i <= resources@.len(),
            out.deep_view() == spec_selected_registry_writes(
                contract_addresses@,
                resources@.take(i as int),
            ),
        decreases resources@.len() - i,
    {
        let ghost pre = out.deep_view();
        proof {
            assert(resources@.take(i + 1).drop_last() =~= resources@.take(i as int));
            assert(resources@.take(i + 1).last() == resources@[i as int]);
        }
        let std_addr = standardize_address(resources[i].address.as_str());
        if addr_in_set(contract_addresses, &std_addr) && str_eq(
            resources[i].type_str.as_str(),
            "0x1::code::PackageRegistry",
        ) {
            out.push((std_addr, resources[i].data.clone()));
            proof {
                assert(out.deep_view() =~= pre.push(out@.last().deep_view()));
            }
        }
        i = i + 1;
    }
    proof {
        assert(resources@.take(resources@.len() as int) =~= resources@);
    }
    out
}

/// A decoded upgrade row: one module version or one package version.
pub enum ContractUpgradeChange {
    ModuleUpgradeChange(ModuleUpgrade),
    PackageUpgradeChange(PackageUpgrade),
}

/// Whether every package of the registry has a decimal upgrade number in
/// range.
pub open spec fn spec_packages_parse(pkgs: Seq<PackageOnChain>) -> bool {
    forall|i: int| 0 <= i < pkgs.len() ==> spec_parses(#[trigger] pkgs[i].upgrade_number@)
}

/// The package rows of one registry write, in order.
pub open spec fn spec_package_rows(
    package_addr: Seq<char>,
    pkgs: Seq<PackageOnChain>,
    tx_version: i64,
) -> Seq<PackageUpgradeModel>
    decreases pkgs.len(),
{
    if pkgs.len() == 0 {
        Seq::empty()
    } else {
        let p = pkgs.last();
        spec_package_rows(package_addr, pkgs.drop_last(), tx_version).push(
            PackageUpgradeModel {
                package_addr,
                package_name: p.name@,
                upgrade_number: spec_decimal_value(p.upgrade_number@) as i64,
                upgrade_policy: p.upgrade_policy.policy,
                package_manifest: p.manifest@,
                source_digest: p.source_digest@,
                tx_version,
            },
        )
    }
}

impl PackageUpgradeChangeOnChain {
    /// The package rows this registry write yields: one per package,
    /// refused whole when any upgrade number is not a decimal in range.
    pub fn to_db_package_upgrade(&self, tx_version: i64, package_addr: String) -> (r: Result<
        Vec<PackageUpgrade>,
        DecodeError,
    >)
        ensures
            r is Ok <==> spec_packages_parse(self.packages@),
            r is Ok ==> r->Ok_0.deep_view() == spec_package_rows(
                package_addr@,
                self.packages@,
                tx_version,
            ),
    {
        let mut out: Vec<PackageUpgrade> = Vec::new();
        let mut i: usize = 0;
        proof {
            assert(self.packages@.take(0) =~= Seq::<PackageOnChain>::empty());
        }
        while i < self.packages.len()
            invariant
                i <= self.packages@.len(),
                forall|j: int|
                    0 <= j < i ==> spec_parses(#[trigger] self.packages@[j].upgrade_number@),
                out.deep_view() == spec_package_rows(
                    package_addr@,
                    self.packages@.take(i as int),
                    tx_version,
                ),
            decreases self.packages@.len() - i,
        {
            let ghost pre = out.deep_view();
            proof {
                assert(self.packages@.take(i + 1).drop_last() =~= self.packages@.take(i as int));
                assert(self.packages@.take(i + 1).last() == self.packages@[i as int]);
            }
            let p = &self.packages[i];
            let upgrade_number = match parse_i64(p.upgrade_number.as_str()) {
                Some(n) => n,
                None => {
                    return Err(
                        DecodeError {
                            message: String::from_str("PackageRegistry: invalid upgrade number"),
                        },
                    );
                },
            };
            out.push(
                PackageUpgrade {
                    package_addr: package_addr.clone(),
                    package_name: p.name.clone(),
                    upgrade_number,
                    upgrade_policy: p.upgrade_policy.policy,
                    package_manifest: p.manifest.clone(),
                    source_digest: p.source_digest.clone(),
                    tx_version,
                },
            );
            proof {
                assert(out.deep_view() =~= pre.push(out@.last().deep_view()));
            }
            i = i + 1;
        }
        proof {
            assert(self.packages@.take(self.packages@.len() as int) =~= self.packages@);
        }
        Ok(out)
    }
}

/// The last module write for this address and module name, if any; a
/// later write of the same module shadows an earlier one.
pub open spec fn spec_find_module_write(
    ws: Seq<ModuleWriteOnChain>,
    addr: Seq<char>,
    name: Seq<char>,
) -> Option<ModuleWriteOnChain>
    decreases ws.len(),
{
    if ws.len() == 0 {
        Option::None
    } else if spec_standardize_address(ws.last().address@) == addr && ws.last().module_name@
        == name {
        Option::Some(ws.last())
    } else {
        spec_find_module_write(ws.drop_last(), addr, name)
    }
}

fn find_module_write<'a>(
    ws: &'a Vec<ModuleWriteOnChain>,
    addr: &String,
    name: &String,
) -> (r: Option<&'a ModuleWriteOnChain>)
    ensures
        match r {
            Option::Some(w) => spec_find_module_write(ws@, addr@, name@) == Option::Some(*w),
            Option::None => spec_find_module_write(ws@, addr@, name@) is None,
        },
{
    let mut i: usize = ws.len();
    proof {
        assert(ws@.take(i as int) =~= ws@);
    }
    while i > 0
        invariant
            i <= ws@.len(),
            spec_find_module_write(ws@, addr@, name@) == spec_find_module_write(
                ws@.take(i as int),
                addr@,
                name@,
            ),
        decreases i,
    {
        i = i - 1;
        proof {
            assert(ws@.take(i + 1).drop_last() =~= ws@.take(i as int));
            assert(ws@.take(i + 1).last() == ws@[i as int]);
        }
        let std_addr = standardize_address(ws[i].address.as_str());
        if str_eq(std_addr.as_str(), addr.as_str()) && str_eq(
            ws[i].module_name.as_str(),
            name.as_str(),
        ) {
            return Some(&ws[i]);
        }
    }
    proof {
        assert(ws@.take(0) =~= Seq::<ModuleWriteOnChain>::empty());
    }
    None
}

/// The module rows of one package at one address: one per manifest
/// module that has a matching module write; the others were unchanged by
/// a same-address republish and are skipped.
pub open spec fn spec_module_rows(
    ws: Seq<ModuleWriteOnChain>,
    package_addr: Seq<char>,
    pkg: PackageOnChain,
    mods: Seq<ModuleOnChain>,
    tx_version: i64,
) -> Seq<ModuleUpgradeModel>
    decreases mods.len(),
{
    if mods.len() == 0 {
        Seq::empty()
    } else {
        let init = spec_module_rows(ws, package_addr, pkg, mods.drop_last(), tx_version);
        let m = mods.last();
        match spec_find_module_write(ws, package_addr, m.name@) {
            Option::None => init,
            Option::Some(w) => init.push(
                ModuleUpgradeModel {
                    module_addr: package_addr,
                    module_name: m.name@,
                    package_name: pkg.name@,
                    upgrade_number: spec_decimal_value(pkg.upgrade_number@) as i64,
                    module_bytecode: w.bytecode@,
                    module_source_code: m.source@,
                    module_abi: w.abi_json@,
                    tx_version,
                },
            ),
        }
    }
}

/// Emits the module rows of one package, joining its manifest against
/// the batch's module writes.
fn package_module_rows(
    ws: &Vec<ModuleWriteOnChain>,
    package_addr: &String,
    pkg: &PackageOnChain,
    upgrade_number: i64,
    tx_version: i64,
) -> (r: Vec<ModuleUpgrade>)
    requires
        upgrade_number == spec_decimal_value(pkg.upgrade_number@),
    ensures
        r.deep_view() == spec_module_rows(ws@, package_addr@, *pkg, pkg.modules@, tx_version),
{
    let mut out: Vec<ModuleUpgrade> = Vec::new();
    let mut i: usize = 0;
    proof {
        assert(pkg.modules@.take(0) =~= Seq::<ModuleOnChain>::empty());
    }
    while i < pkg.modules.len()
        invariant
            i <= pkg.modules@.len(),
            upgrade_number == spec_decimal_value(pkg.upgrade_number@),
            out.deep_view() == spec_module_rows(
                ws@,
                package_addr@,
                *pkg,
                pkg.modules@.take(i as int),
                tx_version,
            ),
        decreases pkg.modules@.len() - i,
    {
        let ghost pre = out.deep_view();
        proof {
            assert(pkg.modules@.take(i + 1).drop_last() =~= pkg.modules@.take(i as int));
            assert(pkg.modules@.take(i + 1).last() == pkg.modules@[i as int]);
        }
        let m = &pkg.modules[i];
        match find_module_write(ws, package_addr, &m.name) {
            Some(w) => {
                out.push(
                    ModuleUpgrade {
                        module_addr: package_addr.clone(),
                        module_name: m.name.clone(),
                        package_name: pkg.name.clone(),
                        upgrade_number,
                        module_bytecode: w.bytecode.clone(),
                        module_source_code: m.source.clone(),
                        module_abi: w.abi_json.clone(),
                        tx_version,
                    },
                );
                proof {
                    assert(out.deep_view() =~= pre.push(out@.last().deep_view()));
                }
            },
            None => {},
        }
        i = i + 1;
    }
    proof {
        assert(pkg.modules@.take(pkg.modules@.len() as int) =~= pkg.modules@);
    }
    out
}

/// Mathematical model of a decoded upgrade row.
pub ghost enum ContractUpgradeChangeModel {
    ModuleUpgradeChange(ModuleUpgradeModel),
    PackageUpgradeChange(PackageUpgradeModel),
}

impl View for ContractUpgradeChange {
    type V = ContractUpgradeChangeModel;

    open spec fn view(&self) -> ContractUpgradeChangeModel {
        match self {
            ContractUpgradeChange::ModuleUpgradeChange(m) => {
                ContractUpgradeChangeModel::ModuleUpgradeChange(m@)
            },
            ContractUpgradeChange::PackageUpgradeChange(p) => {
                ContractUpgradeChangeModel::PackageUpgradeChange(p@)
            },
        }
    }
}

impl DeepView for ContractUpgradeChange {
    type V = ContractUpgradeChangeModel;

    open spec fn deep_view(&self) -> ContractUpgradeChangeModel {
        self.view()
    }
}

/// The module rows of one registry write: per package, the manifest
/// joined against the module writes.
pub open spec fn spec_change_module_rows(
    ws: Seq<ModuleWriteOnChain>,
    addr: Seq<char>,
    pkgs: Seq<PackageOnChain>,
    tx_version: i64,
) -> Seq<ModuleUpgradeModel>
    decreases pkgs.len(),
{
    if pkgs.len() == 0 {
        Seq::empty()
    } else {
        spec_change_module_rows(ws, addr, pkgs.drop_last(), tx_version) + spec_module_rows(
            ws,
            addr,
            pkgs.last(),
            pkgs.last().modules@,
            tx_version,
        )
    }
}

/// The module rows of a whole batch of registry writes, in order.
pub open spec fn spec_all_module_rows(
    ws: Seq<ModuleWriteOnChain>,
    pcs: Seq<(String, PackageUpgradeChangeOnChain)>,
    tx_version: i64,
) -> Seq<ModuleUpgradeModel>
    decreases pcs.len(),
{
    if pcs.len() == 0 {
        Seq::empty()
    } else {
        spec_all_module_rows(ws, pcs.drop_last(), tx_version) + spec_change_module_rows(
            ws,
            pcs.last().0@,
            pcs.last().1.packages@,
            tx_version,
        )
    }
}

/// The package rows of a whole batch of registry writes, in order.
pub open spec fn spec_all_package_rows(
    pcs: Seq<(String, PackageUpgradeChangeOnChain)>,
    tx_version: i64,
) -> Seq<PackageUpgradeModel>
    decreases pcs.len(),
{
    if pcs.len() == 0 {
        Seq::empty()
    } else {
        spec_all_package_rows(pcs.drop_last(), tx_version) + spec_package_rows(
            pcs.last().0@,
            pcs.last().1.packages@,
            tx_version,
        )
    }
}

/// Whether every package of every registry write parses.
pub open spec fn spec_all_packages_parse(pcs: Seq<(String, PackageUpgradeChangeOnChain)>) -> bool {
    forall|i: int| 0 <= i < pcs.len() ==> spec_packages_parse(#[trigger] pcs[i].1.packages@)
}

/// Module rows wrapped as mixed upgrade changes.
pub open spec fn wrap_module_rows(s: Seq<ModuleUpgradeModel>) -> Seq<ContractUpgradeChangeModel> {
    s.map_values(|m: ModuleUpgradeModel| ContractUpgradeChangeModel::ModuleUpgradeChange(m))
}

/// Package rows wrapped as mixed upgrade changes.
pub open spec fn wrap_package_rows(s: Seq<PackageUpgradeModel>) -> Seq<ContractUpgradeChangeModel> {
    s.map_values(|p: PackageUpgradeModel| ContractUpgradeChangeModel::PackageUpgradeChange(p))
}

impl ContractUpgradeChange {
    /// Joins a transaction's module writes against its registry writes:
    /// first the module rows, then the package rows, as one mixed batch.
    /// Refused whole when any package's upgrade number is not a decimal
    /// in range.
    pub fn from_changes(
        tx_version: i64,
        module_writes: &Vec<ModuleWriteOnChain>,
        package_changes: &Vec<(String, PackageUpgradeChangeOnChain)>,
    ) -> (r: Result<Vec<ContractUpgradeChange>, DecodeError>)
        ensures
            r is Ok <==> spec_all_packages_parse(package_changes@),
            r is Ok ==> r->Ok_0.deep_view() == wrap_module_rows(
                spec_all_module_rows(module_writes@, package_changes@, tx_version),
            ) + wrap_package_rows(spec_all_package_rows(package_changes@, tx_version)),
    {
        let ghost pcs = package_changes@;
        let ghost ws = module_writes@;
        let mut out: Vec<ContractUpgradeChange> = Vec::new();
        let mut ci: usize = 0;
        proof {
            assert(pcs.take(0) =~= Seq::<(String, PackageUpgradeChangeOnChain)>::empty());
            assert(out.deep_view() =~= wrap_module_rows(
                spec_all_module_rows(ws, pcs.take(0), tx_version),
            ));
        }
        while ci < package_changes.len()
            invariant
                ci <= pcs.len(),
                pcs == package_changes@,
                ws == module_writes@,
                forall|j: int| 0 <= j < ci ==> spec_packages_parse(#[trigger] pcs[j].1.packages@),
                out.deep_view() == wrap_module_rows(
                    spec_all_module_rows(ws, pcs.take(ci as int), tx_version),
                ),
            decreases pcs.len() - ci,
        {
            let addr = &package_changes[ci].0;
            let change = &package_changes[ci].1;
            let ghost pkgs = change.packages@;
            let mut pi: usize = 0;
            proof {
                assert(pkgs.take(0) =~= Seq::<PackageOnChain>::empty());
                assert(spec_change_module_rows(ws, addr@, pkgs.take(0), tx_version)
                    =~= Seq::<ModuleUpgradeModel>::empty());
            }
            while pi < change.packages.len()
                invariant
                    pi <= pkgs.len(),
                    pcs == package_changes@,
                    ws == module_writes@,
                    ci < pcs.len(),
                    pkgs == pcs[ci as int].1.packages@,
                    change.packages@ == pkgs,
                    addr@ == pcs[ci as int].0@,
                    forall|j: int| 0 <= j < pi ==> spec_parses(#[trigger] pkgs[j].upgrade_number@),
                    out.deep_view() == wrap_module_rows(
                        spec_all_module_rows(ws, pcs.take(ci as int), tx_version)
                            + spec_change_module_rows(ws, addr@, pkgs.take(pi as int), tx_version),
                    ),
                decreases pkgs.len() - pi,
            {
                let ghost pre = out.deep_view();
                proof {
                    assert(pkgs.take(pi + 1).drop_last() =~= pkgs.take(pi as int));
                    assert(pkgs.take(pi + 1).last() == pkgs[pi as int]);
                }
                let pkg = &change.packages[pi];
                let upgrade_number = match parse_i64(pkg.upgrade_number.as_str()) {
                    Some(n) => n,
                    None => {
                        return Err(
                            DecodeError {
                                message: String::from_str(
                                    "PackageRegistry: invalid upgrade number",
                                ),
                            },
                        );
                    },
                };
                let mut rows = package_module_rows(
                    module_writes,
                    addr,
                    pkg,
                    upgrade_number,
                    tx_version,
                );
                let ghost rows_models = rows.deep_view();
                let mut wrapped: Vec<ContractUpgradeChange> = Vec::new();
                let mut ri: usize = 0;
                proof {
                    assert(rows_models.take(0) =~= Seq::<ModuleUpgradeModel>::empty());
                    assert(wrapped.deep_view() =~= wrap_module_rows(rows_models.take(0)));
                }
                while ri < rows.len()
                    invariant
                        ri <= rows@.len(),
                        rows.deep_view() == rows_models,
                        wrapped.deep_view() == wrap_module_rows(rows_models.take(ri as int)),
                    decreases rows@.len() - ri,
                {
                    let ghost wpre = wrapped.deep_view();
                    let row = clone_module_upgrade(&rows[ri]);
                    wrapped.push(ContractUpgradeChange::ModuleUpgradeChange(row));
                    proof {
                        assert(wrapped.deep_view() =~= wpre.push(wrapped@.last().deep_view()));
                        assert(rows_models.take(ri + 1) =~= rows_models.take(ri as int).push(
                            rows_models[ri as int],
                        ));
                        assert(wrap_module_rows(rows_models.take(ri + 1)) =~= wrap_module_rows(
                            rows_models.take(ri as int),
                        ).push(ContractUpgradeChangeModel::ModuleUpgradeChange(
                            rows_models[ri as int],
                        )));
                    }
                    ri = ri + 1;
                }
                proof {
                    assert(rows_models.take(rows_models.len() as int) =~= rows_models);
                }
                let ghost wrapped_models = wrapped.deep_view();
                let ghost ov = out@;
                let ghost odv = out.deep_view();
                let ghost wv = wrapped@;
                out.append(&mut wrapped);
                proof {
                    assert forall|j: int| 0 <= j < out.deep_view().len() implies out.deep_view()[j]
                        == (odv + wrapped_models)[j] by {
                        assert(out.deep_view()[j] == out@[j].deep_view());
                        if j < ov.len() {
                            assert(out@[j] == ov[j]);
                            assert(odv[j] == ov[j].deep_view());
                        } else {
                            assert(out@[j] == wv[j - ov.len()]);
                            assert(wrapped_models[j - ov.len()] == wv[j - ov.len()].deep_view());
                        }
                    }
                    assert(out.deep_view() =~= odv + wrapped_models);
                    assert(wrapped_models == wrap_module_rows(rows_models));
                    assert(spec_change_module_rows(ws, addr@, pkgs.take(pi + 1), tx_version)
                        =~= spec_change_module_rows(ws, addr@, pkgs.take(pi as int), tx_version)
                        + rows_models);
                    assert(out.deep_view() =~= wrap_module_rows(
                        spec_all_module_rows(ws, pcs.take(ci as int), tx_version)
                            + spec_change_module_rows(ws, addr@, pkgs.take(pi + 1), tx_version),
                    ));
                }
                pi = pi + 1;
            }
            proof {
                assert(pkgs.take(pkgs.len() as int) =~= pkgs);
                assert(pcs.take(ci + 1).drop_last() =~= pcs.take(ci as int));
                assert(pcs.take(ci + 1).last() == pcs[ci as int]);
                assert(spec_all_module_rows(ws, pcs.take(ci + 1), tx_version)
                    =~= spec_all_module_rows(ws, pcs.take(ci as int), tx_version)
                    + spec_change_module_rows(ws, addr@, pkgs, tx_version));
            }
            ci = ci + 1;
        }
        proof {
            assert(pcs.take(pcs.len() as int) =~= pcs);
        }

        let ghost module_part = out.deep_view();
        let mut ci2: usize = 0;
        proof {
            assert(pcs.take(0) =~= Seq::<(String, PackageUpgradeChangeOnChain)>::empty());
            assert(spec_all_package_rows(pcs.take(0), tx_version)
                =~= Seq::<PackageUpgradeModel>::empty());
            assert(out.deep_view() =~= module_part + wrap_package_rows(
                spec_all_package_rows(pcs.take(0), tx_version),
            ));
        }
        while ci2 < package_changes.len()
            invariant
                ci2 <= pcs.len(),
                pcs == package_changes@,
                spec_all_packages_parse(pcs),
                out.deep_view() == module_part + wrap_package_rows(
                    spec_all_package_rows(pcs.take(ci2 as int), tx_version),
                ),
            decreases pcs.len() - ci2,
        {
            let addr = &package_changes[ci2].0;
            let change = &package_changes[ci2].1;
            let pkg_rows = match change.to_db_package_upgrade(tx_version, addr.clone()) {
                Ok(v) => v,
                Err(e) => {
                    // The first pass already parsed every upgrade number,
                    // so this branch cannot be reached.
                    assert(false);
                    return Err(e);
                },
            };
            let ghost pkg_models = pkg_rows.deep_view();
            let ghost opre = out.deep_view();
            let mut rest = pkg_rows;
            let mut ri: usize = 0;
            proof {
                assert(pkg_models.take(0) =~= Seq::<PackageUpgradeModel>::empty());
            }
            while ri < rest.len()
                invariant
                    ri <= rest@.len(),
                    rest.deep_view() == pkg_models,
                    out.deep_view() == opre + wrap_package_rows(pkg_models.take(ri as int)),
                decreases rest@.len() - ri,
            {
                let ghost wpre = out.deep_view();
                let row = clone_package_upgrade(&rest[ri]);
                out.push(ContractUpgradeChange::PackageUpgradeChange(row));
                proof {
                    assert(out.deep_view() =~= wpre.push(out@.last().deep_view()));
                    assert(pkg_models.take(ri + 1) =~= pkg_models.take(ri as int).push(
                        pkg_models[ri as int],
                    ));
                    assert(wpre.push(ContractUpgradeChangeModel::PackageUpgradeChange(
                        pkg_models[ri as int],
                    )) =~= opre + wrap_package_rows(pkg_models.take(ri + 1)));
                }
                ri = ri + 1;
            }
            proof {
                assert(pkg_models.take(pkg_models.len() as int) =~= pkg_models);
                assert(pcs.take(ci2 + 1).drop_last() =~= pcs.take(ci2 as int));
                assert(pcs.take(ci2 + 1).last() == pcs[ci2 as int]);
                assert(spec_all_package_rows(pcs.take(ci2 + 1), tx_version)
                    =~= spec_all_package_rows(pcs.take(ci2 as int), tx_version) + pkg_models);
                assert(wrap_package_rows(
                    spec_all_package_rows(pcs.take(ci2 as int), tx_version) + pkg_models,
                ) =~= wrap_package_rows(spec_all_package_rows(pcs.take(ci2 as int), tx_version))
                    + wrap_package_rows(pkg_models));
                assert(wrap_package_rows(pkg_models.take(pkg_models.len() as int))
                    =~= wrap_package_rows(pkg_models));
            }
            ci2 = ci2 + 1;
        }
        proof {
            assert(pcs.take(pcs.len() as int) =~= pcs);
        }
        Ok(out)
    }
}

/// The module table's key.
pub open spec fn module_upgrade_key() -> spec_fn(ModuleUpgradeModel) -> (
    Seq<char>,
    Seq<char>,
    Seq<char>,
    i64,
) {
    |r: ModuleUpgradeModel| r.key()
}

/// A module upgrade at an existing key replaces the row whole: a replay
/// rewrites the same data.
pub open spec fn module_upgrade_merge() -> spec_fn(
    ModuleUpgradeModel,
    ModuleUpgradeModel,
) -> ModuleUpgradeModel {
    |cur: ModuleUpgradeModel, new: ModuleUpgradeModel| new
}

/// The package table's key.
pub open spec fn package_upgrade_key() -> spec_fn(PackageUpgradeModel) -> (
    Seq<char>,
    Seq<char>,
    i64,
) {
    |r: PackageUpgradeModel| r.key()
}

/// A package upgrade at an existing key replaces the row whole.
pub open spec fn package_upgrade_merge() -> spec_fn(
    PackageUpgradeModel,
    PackageUpgradeModel,
) -> PackageUpgradeModel {
    |cur: PackageUpgradeModel, new: PackageUpgradeModel| new
}

fn find_module_upgrade(rows: &Vec<ModuleUpgrade>, row: &ModuleUpgrade) -> (r: Option<usize>)
    ensures
        r matches Some(i) ==> i < rows@.len() && rows@[i as int]@.key() == row@.key() && (forall|
            j: int,
        | 0 <= j < i ==> rows@[j]@.key() != row@.key()),
        r is None ==> forall|j: int| 0 <= j < rows@.len() ==> rows@[j]@.key() != row@.key(),
{
    let mut i: usize = 0;
    while i < rows.len()
        invariant
            i <= rows@.len(),
            forall|j: int| 0 <= j < i ==> rows@[j]@.key() != row@.key(),
        decreases rows@.len() - i,
    {
        if str_eq(rows[i].module_addr.as_str(), row.module_addr.as_str()) && str_eq(
            rows[i].module_name.as_str(),
            row.module_name.as_str(),
        ) && str_eq(rows[i].package_name.as_str(), row.package_name.as_str())
            && rows[i].upgrade_number == row.upgrade_number {
            return Some(i);
        }
        i = i + 1;
    }
    None
}

fn find_package_upgrade(rows: &Vec<PackageUpgrade>, row: &PackageUpgrade) -> (r: Option<usize>)
    ensures
        r matches Some(i) ==> i < rows@.len() && rows@[i as int]@.key() == row@.key() && (forall|
            j: int,
        | 0 <= j < i ==> rows@[j]@.key() != row@.key()),
        r is None ==> forall|j: int| 0 <= j < rows@.len() ==> rows@[j]@.key() != row@.key(),
{
    let mut i: usize = 0;
    while i < rows.len()
        invariant
            i <= rows@.len(),
            forall|j: int| 0 <= j < i ==> rows@[j]@.key() != row@.key(),
        decreases rows@.len() - i,
    {
        if str_eq(rows[i].package_addr.as_str(), row.package_addr.as_str()) && str_eq(
            rows[i].package_name.as_str(),
            row.package_name.as_str(),
        ) && rows[i].upgrade_number == row.upgrade_number {
            return Some(i);
        }
        i = i + 1;
    }
    None
}

/// The upgrade store: one table of module versions, one of package
/// versions.
pub struct UpgradeStore {
    pub module_upgrades: Vec<ModuleUpgrade>,
    pub package_upgrades: Vec<PackageUpgrade>,
}

impl UpgradeStore {
    /// An empty store.
    pub fn new() -> (r: UpgradeStore)
        ensures
            r.module_upgrades@.len() == 0,
            r.package_upgrades@.len() == 0,
    {
        UpgradeStore { module_upgrades: Vec::new(), package_upgrades: Vec::new() }
    }

    /// Upserts one module row by its key; an existing row is replaced
    /// whole.
    pub fn apply_module_upgrade(&mut self, row: ModuleUpgrade)
        ensures
            final(self).module_upgrades.deep_view() == crate::projection::upsert_row(
                old(self).module_upgrades.deep_view(),
                row@,
                module_upgrade_key(),
                module_upgrade_merge(),
            ),
            final(self).package_upgrades == old(self).package_upgrades,
    {
        let ghost models = self.module_upgrades.deep_view();
        match find_module_upgrade(&self.module_upgrades, &row) {
            Some(i) => {
                proof {
                    assert(forall|j: int|
                        0 <= j < models.len() ==> #[trigger] models[j] == old(
                            self,
                        ).module_upgrades@[j]@);
                    crate::projection::lemma_upsert_match_at(
                        models,
                        row@,
                        module_upgrade_key(),
                        module_upgrade_merge(),
                        i as int,
                    );
                }
                self.module_upgrades[i] = row;
                proof {
                    assert(self.module_upgrades.deep_view() =~= models.update(
                        i as int,
                        self.module_upgrades@[i as int]@,
                    ));
                }
            },
            None => {
                proof {
                    assert(forall|j: int|
                        0 <= j < models.len() ==> #[trigger] models[j] == old(
                            self,
                        ).module_upgrades@[j]@);
                    crate::projection::lemma_upsert_no_match(
                        models,
                        row@,
                        module_upgrade_key(),
                        module_upgrade_merge(),
                    );
                }
                self.module_upgrades.push(row);
                proof {
                    assert(self.module_upgrades.deep_view() =~= models.push(
                        self.module_upgrades@.last()@,
                    ));
                }
            },
        }
    }

    /// Upserts one package row by its key; an existing row is replaced
    /// whole.
    pub fn apply_package_upgrade(&mut self, row: PackageUpgrade)
        ensures
            final(self).package_upgrades.deep_view() == crate::projection::upsert_row(
                old(self).package_upgrades.deep_view(),
                row@,
                package_upgrade_key(),
                package_upgrade_merge(),
            ),
            final(self).module_upgrades == old(self).module_upgrades,
    {
        let ghost models = self.package_upgrades.deep_view();
        match find_package_upgrade(&self.package_upgrades, &row) {
            Some(i) => {
                proof {
                    assert(forall|j: int|
                        0 <= j < models.len() ==> #[trigger] models[j] == old(
                            self,
                        ).package_upgrades@[j]@);
                    crate::projection::lemma_upsert_match_at(
                        models,
                        row@,
                        package_upgrade_key(),
                        package_upgrade_merge(),
                        i as int,
                    );
                }
                self.package_upgrades[i] = row;
                proof {
                    assert(self.package_upgrades.deep_view() =~= models.update(
                        i as int,
                        self.package_upgrades@[i as int]@,
                    ));
                }
            },
            None => {
                proof {
                    assert(forall|j: int|
                        0 <= j < models.len() ==> #[trigger] models[j] == old(
                            self,
                        ).package_upgrades@[j]@);
                    crate::projection::lemma_upsert_no_match(
                        models,
                        row@,
                        package_upgrade_key(),
                        package_upgrade_merge(),
                    );
                }
                self.package_upgrades.push(row);
                proof {
                    assert(self.package_upgrades.deep_view() =~= models.push(
                        self.package_upgrades@.last()@,
                    ));
                }
            },
        }
    }
}

/// The module-upgrade part of a batch of decoded changes, in order.
pub open spec fn spec_part_module_upgrades(changes: Seq<ContractUpgradeChange>) -> Seq<
    ModuleUpgradeModel,
>
    decreases changes.len(),
{
    if changes.len() == 0 {
        Seq::empty()
    } else {
        let init = spec_part_module_upgrades(changes.drop_last());
        match changes.last() {
            ContractUpgradeChange::ModuleUpgradeChange(m) => init.push(m@),
            _ => init,
        }
    }
}

/// The package-upgrade part of a batch of decoded changes, in order.
pub open spec fn spec_part_package_upgrades(changes: Seq<ContractUpgradeChange>) -> Seq<
    PackageUpgradeModel,
>
    decreases changes.len(),
{
    if changes.len() == 0 {
        Seq::empty()
    } else {
        let init = spec_part_package_upgrades(changes.drop_last());
        match changes.last() {
            ContractUpgradeChange::PackageUpgradeChange(p) => init.push(p@),
            _ => init,
        }
    }
}

/// The storer stage of the contract-upgrade indexer.
pub struct Storer {
    pub store: UpgradeStore,
}

impl Storer {
    /// A storer over an empty store.
    pub fn new() -> (r: Storer)
        ensures
            r.store.module_upgrades@.len() == 0,
            r.store.package_upgrades@.len() == 0,
    {
        Storer { store: UpgradeStore::new() }
    }

    /// The stage's name.
    pub fn name(&self) -> (r: String)
        ensures
            r@ == "Storer"@,
    {
        String::from_str("Storer")
    }

    /// Partitions a batch of decoded changes and upserts the module rows
    /// and the package rows, each in batch order.
    pub fn process(&mut self, changes: Vec<ContractUpgradeChange>)
        ensures
            final(self).store.module_upgrades.deep_view() == crate::projection::apply_rows(
                old(self).store.module_upgrades.deep_view(),
                spec_part_module_upgrades(changes@),
                module_upgrade_key(),
                module_upgrade_merge(),
            ),
            final(self).store.package_upgrades.deep_view() == crate::projection::apply_rows(
                old(self).store.package_upgrades.deep_view(),
                spec_part_package_upgrades(changes@),
                package_upgrade_key(),
                package_upgrade_merge(),
            ),
    {
        let ghost all = changes@;
        let mut rest = changes;
        let ghost mut done: int = 0;
        proof {
            assert(rest@ =~= all.skip(0));
            assert(all.take(0) =~= Seq::<ContractUpgradeChange>::empty());
        }
        while rest.len() > 0
            invariant
                0 <= done,
                done + rest@.len() == all.len(),
                rest@ == all.skip(done),
                self.store.module_upgrades.deep_view() == crate::projection::apply_rows(
                    old(self).store.module_upgrades.deep_view(),
                    spec_part_module_upgrades(all.take(done)),
                    module_upgrade_key(),
                    module_upgrade_merge(),
                ),
                self.store.package_upgrades.deep_view() == crate::projection::apply_rows(
                    old(self).store.package_upgrades.deep_view(),
                    spec_part_package_upgrades(all.take(done)),
                    package_upgrade_key(),
                    package_upgrade_merge(),
                ),
            decreases rest@.len(),
        {
            let e = rest.remove(0);
            proof {
                assert(e == all[done]);
                assert(rest@ =~= all.skip(done + 1));
                assert(all.take(done + 1).drop_last() =~= all.take(done));
                assert(all.take(done + 1).last() == all[done]);
                crate::projection::lemma_apply_rows_push(
                    old(self).store.module_upgrades.deep_view(),
                    spec_part_module_upgrades(all.take(done)),
                    e@->ModuleUpgradeChange_0,
                    module_upgrade_key(),
                    module_upgrade_merge(),
                );
                crate::projection::lemma_apply_rows_push(
                    old(self).store.package_upgrades.deep_view(),
                    spec_part_package_upgrades(all.take(done)),
                    e@->PackageUpgradeChange_0,
                    package_upgrade_key(),
                    package_upgrade_merge(),
                );
                assert(spec_part_module_upgrades(all.take(done + 1)) == (match all[done]@ {
                    ContractUpgradeChangeModel::ModuleUpgradeChange(m) => spec_part_module_upgrades(
                        all.take(done),
                    ).push(m),
                    _ => spec_part_module_upgrades(all.take(done)),
                }));
            }
            match e {
                ContractUpgradeChange::ModuleUpgradeChange(m) => {
                    self.store.apply_module_upgrade(m);
                },
                ContractUpgradeChange::PackageUpgradeChange(p) => {
                    self.store.apply_package_upgrade(p);
                },
            }
            proof {
                done = done + 1;
            }
        }
        proof {
            assert(all.take(done) =~= all);
        }
    }
}

fn clone_module_upgrade(cur: &ModuleUpgrade) -> (r: ModuleUpgrade)
    ensures
        r@ == cur@,
{
    ModuleUpgrade {
        module_addr: cur.module_addr.clone(),
        module_name: cur.module_name.clone(),
        package_name: cur.package_name.clone(),
        upgrade_number: cur.upgrade_number,
        module_bytecode: cur.module_bytecode.clone(),
        module_source_code: cur.module_source_code.clone(),
        module_abi: cur.module_abi.clone(),
        tx_version: cur.tx_version,
    }
}

fn clone_package_upgrade(cur: &PackageUpgrade) -> (r: PackageUpgrade)
    ensures
        r@ == cur@,
{
    PackageUpgrade {
        package_addr: cur.package_addr.clone(),
        package_name: cur.package_name.clone(),
        upgrade_number: cur.upgrade_number,
        upgrade_policy: cur.upgrade_policy,
        package_manifest: cur.package_manifest.clone(),
        source_digest: cur.source_digest.clone(),
        tx_version: cur.tx_version,
    }
}

} // verus!
