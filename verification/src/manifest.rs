//! The package manifest as the pipeline reads it: the package section, the
//! declared binary list, and the packaging metadata block.

use vstd::prelude::*;
use vstd::string::StringExecFns;
use crate::errors::BinstallError;
use crate::meta::{PkgMeta, PkgMetaView};
use crate::views::opt_str_view;

verus! {

/// One entry of the declared binary list.  Only the name matters to the
/// pipeline; entries without a name are dropped.
#[derive(Debug, Clone, PartialEq, Eq)]
pub struct Product {
    pub name: Option<String>,
}

/// Mathematical image of a `Product`.
pub ghost struct ProductView {
    pub name: Option<Seq<char>>,
}

impl View for Product {
    type V = ProductView;

    open spec fn view(&self) -> ProductView {
        ProductView { name: opt_str_view(self.name) }
    }
}

/// The package section of a manifest.
#[derive(Debug, Clone, PartialEq, Eq)]
pub struct Package {
    pub name: String,
    pub version: String,
    pub repository: Option<String>,
    pub binstall: Option<PkgMeta>,
}

/// Mathematical image of a `Package`.
pub ghost struct PackageView {
    pub name: Seq<char>,
    pub version: Seq<char>,
    pub repository: Option<Seq<char>>,
    pub binstall: Option<PkgMetaView>,
}

impl View for Package {
    type V = PackageView;

    open spec fn view(&self) -> PackageView {
        PackageView {
            name: self.name@,
            version: self.version@,
            repository: opt_str_view(self.repository),
            binstall: match self.binstall {
                Some(m) => Some(m@),
                None => None,
            },
        }
    }
}

/// A loaded manifest: the optional package section and the declared binary
/// list.
#[derive(Debug, Clone, PartialEq, Eq)]
pub struct Manifest {
    pub package: Option<Package>,
    pub bin: Vec<Product>,
}

/// Take the package section out of a manifest; a manifest without one
/// cannot be resolved.
pub fn get_package(manifest: Manifest, crate_name: &String) -> (r: Result<
    (Package, Vec<Product>),
    BinstallError,
>)
    ensures
        match manifest.package {
            Some(p) => r is Ok && r->Ok_0.0 == p && r->Ok_0.1@ == manifest.bin@,
            None => ({
                &&& r matches Err(BinstallError::CargoTomlMissingPackage { name })
                &&& name@ == crate_name@
            }),
        },
{
    match manifest.package {
        Some(p) => Ok((p, manifest.bin)),
        None => Err(
            BinstallError::CargoTomlMissingPackage { name: crate_name.clone() },
        ),
    }
}

/// The declared binaries that actually carry a name, in declaration order.
pub open spec fn spec_filter_named(bins: Seq<Product>) -> Seq<Product> {
    bins.filter(|p: Product| p.name is Some)
}

/// Drop unnamed entries from the binary list; an empty remainder means the
/// package declares nothing installable, which is an error however many
/// unnamed entries there were.
pub fn take_binaries(bins: &Vec<Product>) -> (r: Result<Vec<Product>, BinstallError>)
    ensures
        spec_filter_named(bins@).len() == 0 ==> r == Err::<Vec<Product>, BinstallError>(
            BinstallError::UnspecifiedBinaries,
        ),
        spec_filter_named(bins@).len() > 0 ==> r is Ok && r->Ok_0@ == spec_filter_named(bins@),
{
    let mut kept: Vec<Product> = Vec::new();
    let n = bins.len();
    let mut i: usize = 0;
    proof {
        assert(bins@.take(0) =~= Seq::<Product>::empty());
        assert(spec_filter_named(bins@.take(0)) =~= Seq::<Product>::empty());
    }
    while i < n
        invariant
            n == bins@.len(),
            0 <= i <= n,
            kept@ == spec_filter_named(bins@.take(i as int)),
        decreases n - i,
    {
        match &bins[i] {
            Product { name: Some(s) } => {
                kept.push(Product { name: Some(s.clone()) });
            },
            Product { name: None } => {},
        }
        proof {
            let pre = bins@.take(i as int);
            let post = bins@.take(i as int + 1);
            assert(post.drop_last() =~= pre);
            assert(post.last() == bins@[i as int]);
            reveal_with_fuel(Seq::<Product>::filter, 2);
            assert(spec_filter_named(post) == if bins@[i as int].name is Some {
                spec_filter_named(pre).push(bins@[i as int])
            } else {
                spec_filter_named(pre)
            });
        }
        i = i + 1;
    }
    proof {
        assert(bins@.take(n as int) =~= bins@);
    }
    if kept.len() == 0 {
        Err(BinstallError::UnspecifiedBinaries)
    } else {
        Ok(kept)
    }
}

/// Decide which file a caller-supplied manifest path denotes: a directory
/// gets the conventional manifest filename appended, a file is used as it
/// is, anything else is rejected.  The caller reports whether the path is a
/// directory or a file; this function makes the decision the pipeline acts
/// on.
pub fn resolve_manifest_path(path: String, is_dir: bool, is_file: bool) -> (r: Result<
    String,
    BinstallError,
>)
    ensures
        is_dir ==> r is Ok && r->Ok_0@ == path@ + "/Cargo.toml"@,
        !is_dir && is_file ==> r is Ok && r->Ok_0@ == path@,
        !is_dir && !is_file ==> r == Err::<String, BinstallError>(BinstallError::CargoManifestPath),
{
    if is_dir {
        Ok(path.concat("/Cargo.toml"))
    } else if is_file {
        Ok(path)
    } else {
        Err(BinstallError::CargoManifestPath)
    }
}

/// The packaging metadata of a package, or an all-default block when the
/// manifest carries none.
pub fn take_meta(package: &Package) -> (r: PkgMeta)
    ensures
        match package@.binstall {
            Some(m) => r@ == m,
            None => {
                &&& r@.pkg_url is None
                &&& r@.pkg_fmt is None
                &&& r@.bin_dir is None
                &&& r@.pub_key is None
                &&& r@.overrides.len() == 0
            },
        },
{
    match &package.binstall {
        Some(m) => m.duplicate(),
        None => PkgMeta::default_meta(),
    }
}

} // verus!
