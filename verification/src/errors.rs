//! Errors surfaced by the resolution pipeline.

use vstd::prelude::*;

verus! {

/// Everything that can stop a resolution, or a single backend attempt.
#[derive(Debug, PartialEq, Eq)]
pub enum BinstallError {
    /// A version constraint was given both inside the package reference and
    /// as a separate option; the two forms are mutually exclusive.
    SuperfluousVersionOption,
    /// The manifest path supplied by the caller is neither a file nor a
    /// directory.
    CargoManifestPath,
    /// The manifest has no `package` section.
    CargoTomlMissingPackage { name: String },
    /// A manifest could not be loaded or parsed, locally or from the
    /// registry.  Raised by the manifest-loading front end, never by the
    /// pipeline itself.
    CargoManifest { reason: String },
    /// The version string in the manifest could not be parsed.
    VersionParse { v: String },
    /// After dropping unnamed entries, the declared binary list is empty.
    UnspecifiedBinaries,
    /// Two declared binaries render to the same source path.
    DuplicateSourceFilePath { path: String },
    /// A rendered source path does not exist in the unpacked archive.
    BinFileNotFound { path: String },
    /// An error annotated with the package it arose for.
    CrateContext { name: String, err: Box<BinstallError> },
}

impl BinstallError {
    /// Annotate this error with the name of the package being resolved, so a
    /// caller resolving many packages can attribute the failure.
    pub fn crate_context(self, name: String) -> (r: Self)
        ensures
            ({
                &&& r matches BinstallError::CrateContext { name: n, err: e }
                &&& n@ == name@
                &&& *e == self
            }),
    {
        BinstallError::CrateContext { name, err: Box::new(self) }
    }
}

} // verus!
