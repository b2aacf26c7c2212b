//! The probe matrix: one task input per (target, backend) pair, in
//! target-major, backend-minor order.  This order is load-bearing: the race
//! engine commits to the first usable pair in exactly this order.

use vstd::prelude::*;
use itertools::Itertools;
use crate::manifest::{Package, PackageView};
use crate::meta::{spec_target_meta, PkgMeta, PkgMetaView, PkgOverride, PkgOverrideView};
use crate::views::opt_str_view;

verus! {

/// The available backends, in their fixed priority order: the release-asset
/// backend first, the community-mirror backend second.
#[derive(Debug, Clone, Copy, PartialEq, Eq, Structural)]
pub enum BackendKind {
    GhCrateMeta,
    QuickInstall,
}

/// Everything a backend needs to probe and fetch for one target.
#[derive(Debug, Clone)]
pub struct Data {
    pub name: String,
    pub target: String,
    pub version: String,
    pub repo: Option<String>,
    pub meta: PkgMeta,
}

/// Mathematical image of a `Data`.
pub ghost struct DataView {
    pub name: Seq<char>,
    pub target: Seq<char>,
    pub version: Seq<char>,
    pub repo: Option<Seq<char>>,
    pub meta: PkgMetaView,
}

impl View for Data {
    type V = DataView;

    open spec fn view(&self) -> DataView {
        DataView {
            name: self.name@,
            target: self.target@,
            version: self.version@,
            repo: opt_str_view(self.repo),
            meta: self.meta@,
        }
    }
}

/// The task input for one target: package identity plus the effective
/// metadata of [`spec_target_meta`].
pub open spec fn spec_data_for(
    package: PackageView,
    base: PkgMetaView,
    target: Seq<char>,
    cli: PkgOverrideView,
) -> DataView {
    DataView {
        name: package.name,
        target: target,
        version: package.version,
        repo: package.repository,
        meta: spec_target_meta(base, target, cli),
    }
}

/// Relies on `itertools::Itertools::cartesian_product`: the product of two
/// iterators yields every pair in first-major, second-minor order, cloning
/// the first iterator's current item for each item of the second; `String`
/// and `Vec` clones are equal to their originals.
#[verifier::external_body]
fn cartesian(datas: Vec<Data>, kinds: Vec<BackendKind>) -> (r: Vec<(Data, BackendKind)>)
    ensures
        r@.len() == datas@.len() * kinds@.len(),
        forall|i: int, j: int|
            0 <= i < datas@.len() && 0 <= j < kinds@.len() ==> r@[i * kinds@.len() + j] == (
                datas@[i],
                kinds@[j],
            ),
{
    datas.into_iter().cartesian_product(kinds.into_iter()).collect()
}

fn clone_opt_string(o: &Option<String>) -> (r: Option<String>)
    ensures
        opt_str_view(r) == opt_str_view(*o),
{
    match o {
        Some(s) => Some(s.clone()),
        None => None,
    }
}

/// Build one `Data` per requested target, in the targets' own order, each
/// carrying the three-way-merged metadata for that target.
pub fn build_fetch_data(
    package: &Package,
    base: &PkgMeta,
    targets: &Vec<String>,
    cli: &PkgOverride,
) -> (r: Vec<Data>)
    ensures
        r@.len() == targets@.len(),
        forall|i: int|
            0 <= i < targets@.len() ==> (#[trigger] r@[i])@ == spec_data_for(
                package@,
                base@,
                targets@[i]@,
                cli@,
            ),
{
    let mut out: Vec<Data> = Vec::new();
    let n = targets.len();
    let mut i: usize = 0;
    while i < n
        invariant
            n == targets@.len(),
            0 <= i <= n,
            out@.len() == i,
            forall|k: int|
                0 <= k < i ==> (#[trigger] out@[k])@ == spec_data_for(
                    package@,
                    base@,
                    targets@[k]@,
                    cli@,
                ),
        decreases n - i,
    {
        let d = Data {
            name: package.name.clone(),
            target: targets[i].clone(),
            version: package.version.clone(),
            repo: clone_opt_string(&package.repository),
            meta: base.merged_for_target(&targets[i], cli),
        };
        out.push(d);
        i = i + 1;
    }
    out
}

/// The fixed backend order of the race.
pub fn backend_kinds() -> (r: Vec<BackendKind>)
    ensures
        r@.len() == 2,
        r@[0] == BackendKind::GhCrateMeta,
        r@[1] == BackendKind::QuickInstall,
{
    let mut v: Vec<BackendKind> = Vec::new();
    v.push(BackendKind::GhCrateMeta);
    v.push(BackendKind::QuickInstall);
    v
}

/// The backend a matrix index stands for: even indices are the
/// release-asset backend, odd ones the community mirror.
pub open spec fn pair_backend(p: int) -> BackendKind {
    if p % 2 == 0 {
        BackendKind::GhCrateMeta
    } else {
        BackendKind::QuickInstall
    }
}

/// The target a matrix index stands for.
pub open spec fn pair_target(targets: Seq<String>, p: int) -> Seq<char> {
    targets[p / 2]@
}

/// Build the full probe matrix: the cross product of the per-target task
/// inputs with the backend kinds, target-major, backend-minor.
pub fn build_probe_matrix(
    package: &Package,
    base: &PkgMeta,
    targets: &Vec<String>,
    cli: &PkgOverride,
) -> (r: Vec<(Data, BackendKind)>)
    ensures
        r@.len() == targets@.len() * 2,
        forall|p: int|
            0 <= p < r@.len() ==> {
                &&& (#[trigger] r@[p]).0@ == spec_data_for(
                    package@,
                    base@,
                    pair_target(targets@, p),
                    cli@,
                )
                &&& r@[p].1 == pair_backend(p)
            },
{
    let datas = build_fetch_data(package, base, targets, cli);
    let kinds = backend_kinds();
    let r = cartesian(datas, kinds);
    proof {
        assert forall|p: int| 0 <= p < r@.len() implies {
            &&& (#[trigger] r@[p]).0@ == spec_data_for(package@, base@, pair_target(targets@, p), cli@)
            &&& r@[p].1 == pair_backend(p)
        } by {
            let t = p / 2;
            let j = p % 2;
            assert(p == 2 * t + j && 0 <= j < 2) by (nonlinear_arith)
                requires
                    0 <= p,
                    t == p / 2,
                    j == p % 2,
            ;
            assert(0 <= t < targets@.len()) by (nonlinear_arith)
                requires
                    0 <= p < targets@.len() * 2,
                    t == p / 2,
            ;
            assert(r@[t * 2 + j] == (datas@[t], kinds@[j]));
        }
    }
    r
}

} // verus!
