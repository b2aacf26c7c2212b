//! Binary-file records: the mapping from declared binaries to the file
//! extracted from the archive and its final installed location, with the
//! hard invariant that no two records share a source path.

use vstd::prelude::*;
use vstd::pervasive::unreached;
use crate::errors::BinstallError;
use crate::manifest::Product;
use crate::views::opt_str_view;

verus! {

/// The resolved mapping for one declared binary: where the file sits inside
/// the unpacked archive and where it is to be installed.
#[derive(Debug, Clone, PartialEq, Eq)]
pub struct BinFile {
    pub base_name: String,
    pub source: String,
    pub dest: String,
}

/// Mathematical image of a `BinFile`.
pub ghost struct BinFileView {
    pub base_name: Seq<char>,
    pub source: Seq<char>,
    pub dest: Seq<char>,
}

impl View for BinFile {
    type V = BinFileView;

    open spec fn view(&self) -> BinFileView {
        BinFileView { base_name: self.base_name@, source: self.source@, dest: self.dest@ }
    }
}

/// The rendered source paths, as character sequences.
pub open spec fn path_views(sources: Seq<String>) -> Seq<Seq<char>> {
    sources.map_values(|s: String| s@)
}

/// Whether path `j` repeats one that stands earlier in the list.
pub open spec fn dup_at(paths: Seq<Seq<char>>, j: int) -> bool {
    exists|a: int| 0 <= a < j && paths[a] == paths[j]
}

/// No two of the first `j` records share a source path.
pub open spec fn distinct_sources_up_to(files: Seq<BinFile>, j: int) -> bool {
    forall|a: int, b: int| 0 <= a < b < j ==> files[a].source@ != files[b].source@
}

/// Pick the explicit binary-directory template if the metadata has one,
/// else fall back to the inferred conventional layout.
pub fn resolve_bin_dir(explicit: &Option<String>, inferred: String) -> (r: String)
    ensures
        match opt_str_view(*explicit) {
            Some(t) => r@ == t,
            None => r@ == inferred@,
        },
{
    match explicit {
        Some(t) => t.clone(),
        None => inferred,
    }
}

/// Assemble the binary-file records for one backend attempt and enforce the
/// distinct-source invariant.
///
/// The caller renders, for each declared binary, the source path inside the
/// unpacked archive and the destination path in the install directory; this
/// function pairs them with the binary names and rejects the set as soon as
/// one rendered source path is produced twice — two declared binaries may
/// never alias the same extracted file.  The offending path reported is the
/// first one, in declaration order, that repeats an earlier one.
pub fn collect_bin_files(
    binaries: &Vec<Product>,
    sources: &Vec<String>,
    dests: &Vec<String>,
) -> (r: Result<Vec<BinFile>, BinstallError>)
    requires
        sources@.len() == binaries@.len(),
        dests@.len() == binaries@.len(),
        forall|i: int| 0 <= i < binaries@.len() ==> (#[trigger] binaries@[i])@.name is Some,
    ensures
        match r {
            Ok(files) => {
                &&& files@.len() == binaries@.len()
                &&& forall|i: int|
                    0 <= i < binaries@.len() ==> (#[trigger] files@[i])@ == (BinFileView {
                        base_name: binaries@[i]@.name->0,
                        source: sources@[i]@,
                        dest: dests@[i]@,
                    })
                &&& distinct_sources_up_to(files@, files@.len() as int)
            },
            Err(e) => exists|j: int|
                {
                    &&& 0 <= j < binaries@.len()
                    &&& #[trigger] dup_at(path_views(sources@), j)
                    &&& forall|k: int| 0 <= k < j ==> !dup_at(path_views(sources@), k)
                    &&& (e matches BinstallError::DuplicateSourceFilePath { path } && path@
                        == path_views(sources@)[j])
                },
        },
{
    let n = binaries.len();
    let mut files: Vec<BinFile> = Vec::new();
    let mut i: usize = 0;
    while i < n
        invariant
            n == binaries@.len(),
            sources@.len() == n,
            dests@.len() == n,
            forall|k: int| 0 <= k < n ==> (#[trigger] binaries@[k])@.name is Some,
            0 <= i <= n,
            files@.len() == i,
            forall|k: int|
                0 <= k < i ==> (#[trigger] files@[k])@ == (BinFileView {
                    base_name: binaries@[k]@.name->0,
                    source: sources@[k]@,
                    dest: dests@[k]@,
                }),
            distinct_sources_up_to(files@, i as int),
        decreases n - i,
    {
        // Reject this record if its source path repeats an earlier one.
        let mut a: usize = 0;
        while a < i
            invariant
                0 <= a <= i < n,
                n == binaries@.len(),
                sources@.len() == n,
                files@.len() == i,
                distinct_sources_up_to(files@, i as int),
                forall|k: int|
                    0 <= k < files@.len() ==> (#[trigger] files@[k])@.source == sources@[k]@,
                forall|k: int| 0 <= k < a ==> (#[trigger] files@[k])@.source != sources@[i as int]@,
            decreases i - a,
        {
            if files[a].source == sources[i] {
                proof {
                    let paths = path_views(sources@);
                    assert(paths[a as int] == sources@[a as int]@);
                    assert(paths[i as int] == sources@[i as int]@);
                    assert(files@[a as int]@.source == sources@[a as int]@);
                    assert(dup_at(paths, i as int));
                    assert forall|k: int| 0 <= k < i as int implies !dup_at(paths, k) by {
                        if dup_at(paths, k) {
                            let b = choose|b: int| 0 <= b < k && paths[b] == paths[k];
                            assert(files@[b]@.source == sources@[b]@);
                            assert(files@[k]@.source == sources@[k]@);
                            assert(files@[b].source@ != files@[k].source@);
                        }
                    }
                }
                return Err(
                    BinstallError::DuplicateSourceFilePath { path: sources[i].clone() },
                );
            }
            a = a + 1;
        }
        let name = match &binaries[i].name {
            Some(s) => s.clone(),
            None => unreached(),
        };
        files.push(BinFile { base_name: name, source: sources[i].clone(), dest: dests[i].clone() });
        i = i + 1;
    }
    Ok(files)
}

/// Check the verification report for the extracted files: every record's
/// source path must exist on disk.  The caller checks the filesystem and
/// hands the per-record answers in; the first missing file, in record
/// order, fails the whole backend attempt.
pub fn verify_sources(files: &Vec<BinFile>, present: &Vec<bool>) -> (r: Result<(), BinstallError>)
    requires
        present@.len() == files@.len(),
    ensures
        (forall|i: int| 0 <= i < present@.len() ==> #[trigger] present@[i]) <==> r is Ok,
        match r {
            Ok(_) => true,
            Err(e) => {
                &&& exists|j: int|
                    0 <= j < present@.len() && !(#[trigger] present@[j]) && ({
                        &&& e matches BinstallError::BinFileNotFound { path }
                        &&& path@ == files@[j]@.source
                        &&& forall|k: int| 0 <= k < j ==> present@[k]
                    })
            },
        },
{
    let n = files.len();
    let mut i: usize = 0;
    while i < n
        invariant
            n == files@.len(),
            present@.len() == n,
            0 <= i <= n,
            forall|k: int| 0 <= k < i ==> #[trigger] present@[k],
        decreases n - i,
    {
        if !present[i] {
            return Err(BinstallError::BinFileNotFound { path: files[i].source.clone() });
        }
        i = i + 1;
    }
    Ok(())
}

} // verus!
