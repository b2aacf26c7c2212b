//! The discovery race engine and the terminal resolution.
//!
//! All probes run concurrently, but their results are consumed in the
//! matrix's own target-major, backend-minor order: a slow early probe still
//! blocks a fast later one.  The engine commits to the first pair whose
//! probe reports existence and whose fetch-extract-verify pipeline then
//! succeeds; a pair that fails anywhere only eliminates that pair.  The
//! caller performs the probes and the pipeline and feeds the outcomes in;
//! the engine decides, and its decisions are independent of timing by
//! construction.

use vstd::prelude::*;
use vstd::pervasive::unreached;
use crate::bins::BinFile;
use crate::errors::BinstallError;
use crate::manifest::{get_package, spec_filter_named, take_binaries, take_meta, Manifest, Package,
    Product};
use crate::matrix::{build_probe_matrix, pair_backend, pair_target, BackendKind, Data};
use crate::meta::PkgOverride;
use crate::version::{check_curr_version, parsed_version, select_version_req, version_eq, Version};

verus! {

/// What one probe reported: the artifact exists, it does not, or the probe
/// itself failed.  A failed probe is treated like a missing artifact, only
/// logged louder by the caller.
#[derive(Debug, Clone, Copy, PartialEq, Eq, Structural)]
pub enum ProbeOutcome {
    Exists,
    NotFound,
    ProbeError,
}

/// The terminal decision of a resolution.
#[derive(Debug)]
pub enum Resolution {
    /// A usable prebuilt artifact was found and verified.
    Fetch {
        backend: BackendKind,
        target: String,
        package: Package,
        name: String,
        version_req: String,
        bin_files: Vec<BinFile>,
    },
    /// No backend produced a verified artifact set.
    InstallFromSource { package: Package },
    /// The installed version already satisfies the request.
    AlreadyUpToDate,
}

/// The race over the probe matrix, stepped by the caller.
pub struct RaceEngine {
    /// The matrix, in evaluation order.
    pub pairs: Vec<(Data, BackendKind)>,
    /// The pair under consideration.
    pub cursor: usize,
    /// Whether the pipeline for `pairs[cursor]` is being attempted.
    pub pending: bool,
    /// The pair committed to, once one pipeline has succeeded.
    pub committed: Option<usize>,
    /// History of the pair indices whose probe results were consumed, in
    /// consumption order.
    pub evaluated: Ghost<Seq<int>>,
}

impl RaceEngine {
    /// The engine's invariant: the cursor walks the matrix left to right,
    /// and the consumption history is exactly the prefix of indices the
    /// cursor has passed, in order.
    pub open spec fn wf(&self) -> bool {
        &&& self.cursor <= self.pairs@.len()
        &&& (self.pending ==> self.cursor < self.pairs@.len() && self.committed is None)
        &&& (self.committed matches Some(c) ==> c == self.cursor && self.cursor
            < self.pairs@.len() && !self.pending)
        &&& self.evaluated@.len() == self.cursor + (if self.pending || self.committed is Some {
            1int
        } else {
            0int
        })
        &&& forall|k: int| 0 <= k < self.evaluated@.len() ==> self.evaluated@[k] == k
    }

    /// The race is over: either a pair was committed to, or the matrix is
    /// exhausted.
    pub open spec fn done_spec(&self) -> bool {
        self.committed is Some || (self.cursor == self.pairs@.len() && !self.pending)
    }

    pub fn new(pairs: Vec<(Data, BackendKind)>) -> (r: Self)
        ensures
            r.wf(),
            r.pairs@ == pairs@,
            r.cursor == 0,
            !r.pending,
            r.committed is None,
            r.evaluated@ == Seq::<int>::empty(),
    {
        RaceEngine {
            pairs,
            cursor: 0,
            pending: false,
            committed: None,
            evaluated: Ghost(Seq::empty()),
        }
    }

    pub fn done(&self) -> (r: bool)
        ensures
            r == self.done_spec(),
    {
        match self.committed {
            Some(_) => true,
            None => self.cursor == self.pairs.len() && !self.pending,
        }
    }

    /// Consume the probe result for the pair under the cursor.  Returns
    /// whether the caller must now run the fetch-extract-verify pipeline
    /// for that pair: only an artifact reported to exist is worth fetching;
    /// a missing artifact is skipped silently and a failed probe is skipped
    /// after a warning, both moving the cursor on.
    pub fn on_probe(&mut self, outcome: ProbeOutcome) -> (r: bool)
        requires
            old(self).wf(),
            !old(self).done_spec(),
            !old(self).pending,
        ensures
            final(self).wf(),
            final(self).pairs@ == old(self).pairs@,
            final(self).committed is None,
            final(self).evaluated@ == old(self).evaluated@.push(old(self).cursor as int),
            r == (outcome == ProbeOutcome::Exists),
            outcome == ProbeOutcome::Exists ==> final(self).pending && final(self).cursor == old(
                self,
            ).cursor,
            outcome != ProbeOutcome::Exists ==> !final(self).pending && final(self).cursor == old(
                self,
            ).cursor + 1,
    {
        let n = self.pairs.len();
        self.evaluated = Ghost(self.evaluated@.push(self.cursor as int));
        match outcome {
            ProbeOutcome::Exists => {
                self.pending = true;
                true
            },
            ProbeOutcome::NotFound => {
                self.cursor = self.cursor + 1;
                false
            },
            ProbeOutcome::ProbeError => {
                self.cursor = self.cursor + 1;
                false
            },
        }
    }

    /// Consume the pipeline outcome for the pair under the cursor.  Success
    /// commits the race to this pair; any failure — download, extraction,
    /// duplicate source path, missing file — only eliminates the pair, and
    /// the scan proceeds with the next one.
    pub fn on_pipeline(&mut self, ok: bool)
        requires
            old(self).wf(),
            old(self).pending,
        ensures
            final(self).wf(),
            final(self).pairs@ == old(self).pairs@,
            final(self).evaluated@ == old(self).evaluated@,
            !final(self).pending,
            ok ==> final(self).committed == Some(old(self).cursor) && final(self).cursor == old(
                self,
            ).cursor,
            !ok ==> final(self).committed is None && final(self).cursor == old(self).cursor + 1,
    {
        let n = self.pairs.len();
        self.pending = false;
        if ok {
            self.committed = Some(self.cursor);
        } else {
            self.cursor = self.cursor + 1;
        }
    }
}

/// Probe results are consumed strictly in matrix order: the engine's k-th
/// consumption, over its whole life, is of pair k.  Evaluation order is
/// deterministic and independent of probe completion timing, which never
/// enters the engine at all.
pub proof fn lemma_evaluation_in_order(e: &RaceEngine)
    requires
        e.wf(),
    ensures
        forall|k: int| 0 <= k < e.evaluated@.len() ==> e.evaluated@[k] == k,
{
}

/// Whether pair `k` wins the race when probe outcomes and pipeline
/// outcomes are as given: its probe reports existence and its pipeline
/// succeeds.
pub open spec fn pair_wins(probes: Seq<ProbeOutcome>, oks: Seq<bool>, k: int) -> bool {
    probes[k] == ProbeOutcome::Exists && oks[k]
}

/// The first winning pair at or after `i`, scanning in matrix order.
pub open spec fn winner_from(probes: Seq<ProbeOutcome>, oks: Seq<bool>, i: int) -> Option<int>
    decreases probes.len() - i,
{
    if i < 0 || i >= probes.len() {
        None
    } else if pair_wins(probes, oks, i) {
        Some(i)
    } else {
        winner_from(probes, oks, i + 1)
    }
}

/// The pair the race commits to, if any: the first, in matrix order, whose
/// probe reports existence and whose pipeline succeeds.
pub open spec fn spec_winner(probes: Seq<ProbeOutcome>, oks: Seq<bool>) -> Option<int> {
    winner_from(probes, oks, 0)
}

/// Whether each scripted pipeline outcome is a success.
pub open spec fn results_ok(rs: Seq<Option<Vec<BinFile>>>) -> Seq<bool> {
    rs.map_values(|o: Option<Vec<BinFile>>| o is Some)
}

/// The whole decision of one resolution, relating the inputs to the
/// outcome, in the order the pipeline applies them:
///
/// 1. conflicting version constraints are fatal before anything else;
/// 2. a manifest without a package section is fatal;
/// 3. with a version installed, an unparsable manifest version is fatal,
///    and an exactly equal parsed one ends the resolution as already up to
///    date;
/// 4. a binary list with no named entry is fatal;
/// 5. otherwise the race decides: the first pair, in matrix order, whose
///    probe reports existence and whose pipeline succeeds is fetched, and
///    if there is none the package is installed from source.
pub open spec fn spec_resolution_outcome(
    name: String,
    embedded_req: Option<String>,
    explicit_req: Option<String>,
    curr_version: Option<Version>,
    manifest: Manifest,
    targets: Seq<String>,
    probes: Seq<ProbeOutcome>,
    results: Seq<Option<Vec<BinFile>>>,
    r: Result<Resolution, BinstallError>,
) -> bool {
    let chosen = if embedded_req is Some {
        embedded_req->0@
    } else if explicit_req is Some {
        explicit_req->0@
    } else {
        "*"@
    };
    if embedded_req is Some && explicit_req is Some {
        r == Err::<Resolution, BinstallError>(BinstallError::SuperfluousVersionOption)
    } else {
        match manifest.package {
            None => (r matches Err(BinstallError::CargoTomlMissingPackage { name: n }) && n@
                == name@),
            Some(p) => {
                if curr_version is Some && parsed_version(p.version@) is None {
                    (r matches Err(BinstallError::VersionParse { v }) && v@ == p.version@)
                } else if curr_version is Some && version_eq(
                    parsed_version(p.version@)->0,
                    curr_version->0@,
                ) {
                    r == Ok::<Resolution, BinstallError>(Resolution::AlreadyUpToDate)
                } else if spec_filter_named(manifest.bin@).len() == 0 {
                    r == Err::<Resolution, BinstallError>(BinstallError::UnspecifiedBinaries)
                } else {
                    match spec_winner(probes, results_ok(results)) {
                        Some(i) => (r matches Ok(
                            Resolution::Fetch {
                                backend,
                                target,
                                package,
                                name: n,
                                version_req,
                                bin_files,
                            },
                        ) && ({
                            &&& backend == pair_backend(i)
                            &&& target@ == pair_target(targets, i)
                            &&& package == p
                            &&& n@ == name@
                            &&& version_req@ == chosen
                            &&& (results[i] matches Some(f) && bin_files@ == f@)
                        })),
                        None => (r matches Ok(Resolution::InstallFromSource { package }) && package
                            == p),
                    }
                }
            },
        }
    }
}

/// Run one resolution over already-gathered outside facts: the loaded
/// manifest, the outcome each probe reported, and the outcome of the
/// fetch-extract-verify pipeline for each pair, had it been attempted.
///
/// No probe outcome and no pipeline outcome is consulted before the
/// version constraints, the package section, the installed version and the
/// binary list have passed their checks — a resolution that fails those
/// never looks at a backend.  The race then consumes probe outcomes
/// strictly in matrix order and commits to the first pair whose probe
/// reported existence and whose pipeline succeeded; pipeline failures only
/// eliminate their pair.
#[verifier::loop_isolation(false)]
pub fn resolve_inner(
    name: String,
    embedded_req: Option<String>,
    explicit_req: Option<String>,
    curr_version: Option<Version>,
    manifest: Manifest,
    targets: Vec<String>,
    cli_overrides: PkgOverride,
    probes: Vec<ProbeOutcome>,
    pipeline_results: Vec<Option<Vec<BinFile>>>,
) -> (r: Result<Resolution, BinstallError>)
    requires
        probes@.len() == targets@.len() * 2,
        pipeline_results@.len() == targets@.len() * 2,
    ensures
        spec_resolution_outcome(
            name,
            embedded_req,
            explicit_req,
            curr_version,
            manifest,
            targets@,
            probes@,
            pipeline_results@,
            r,
        ),
{
    let mut results = pipeline_results;
    let version_req = match select_version_req(&embedded_req, &explicit_req) {
        Ok(v) => v,
        Err(e) => {
            return Err(e);
        },
    };
    let (package, bin) = match get_package(manifest, &name) {
        Ok(t) => t,
        Err(e) => {
            return Err(e);
        },
    };
    match check_curr_version(&package.version, &curr_version) {
        Err(e) => {
            return Err(e);
        },
        Ok(up_to_date) => {
            if up_to_date {
                return Ok(Resolution::AlreadyUpToDate);
            }
        },
    }
    match take_binaries(&bin) {
        Ok(_) => {},
        Err(e) => {
            return Err(e);
        },
    }
    let base = take_meta(&package);
    let pairs = build_probe_matrix(&package, &base, &targets, &cli_overrides);
    let ghost oks = results_ok(results@);
    let mut engine = RaceEngine::new(pairs);
    while !engine.done()
        invariant
            engine.wf(),
            !engine.pending,
            engine.committed is None,
            engine.pairs@.len() == targets@.len() * 2,
            forall|p: int|
                0 <= p < engine.pairs@.len() ==> (#[trigger] engine.pairs@[p]).1 == pair_backend(p)
                    && engine.pairs@[p].0@.target == pair_target(targets@, p),
            results@ == pipeline_results@,
            spec_winner(probes@, oks) == winner_from(probes@, oks, engine.cursor as int),
        decreases engine.pairs@.len() - engine.cursor,
    {
        let i = engine.cursor;
        let run = engine.on_probe(probes[i]);
        if run {
            let has = results[i].is_some();
            if has {
                engine.on_pipeline(true);
                proof {
                    assert(oks[i as int] == (results@[i as int] is Some));
                    assert(pair_wins(probes@, oks, i as int));
                    assert(winner_from(probes@, oks, i as int) == Some(i as int));
                }
                let slot = results.remove(i);
                let files = match slot {
                    Some(f) => f,
                    None => unreached(),
                };
                let pair = &engine.pairs[i];
                return Ok(
                    Resolution::Fetch {
                        backend: pair.1,
                        target: pair.0.target.clone(),
                        package,
                        name,
                        version_req,
                        bin_files: files,
                    },
                );
            } else {
                engine.on_pipeline(false);
                proof {
                    assert(oks[i as int] == (results@[i as int] is Some));
                    assert(!pair_wins(probes@, oks, i as int));
                    assert(winner_from(probes@, oks, i as int) == winner_from(
                        probes@,
                        oks,
                        i as int + 1,
                    ));
                }
            }
        } else {
            proof {
                assert(!pair_wins(probes@, oks, i as int));
                assert(winner_from(probes@, oks, i as int) == winner_from(
                    probes@,
                    oks,
                    i as int + 1,
                ));
            }
        }
    }
    proof {
        assert(winner_from(probes@, oks, engine.cursor as int) is None);
    }
    Ok(Resolution::InstallFromSource { package })
}

/// Resolve one package; any failure is annotated with the package's name,
/// so a caller resolving many packages can attribute it.
pub fn resolve(
    name: String,
    embedded_req: Option<String>,
    explicit_req: Option<String>,
    curr_version: Option<Version>,
    manifest: Manifest,
    targets: Vec<String>,
    cli_overrides: PkgOverride,
    probes: Vec<ProbeOutcome>,
    pipeline_results: Vec<Option<Vec<BinFile>>>,
) -> (r: Result<Resolution, BinstallError>)
    requires
        probes@.len() == targets@.len() * 2,
        pipeline_results@.len() == targets@.len() * 2,
    ensures
        r matches Ok(res) ==> spec_resolution_outcome(
            name,
            embedded_req,
            explicit_req,
            curr_version,
            manifest,
            targets@,
            probes@,
            pipeline_results@,
            Ok(res),
        ),
        r matches Err(e) ==> (e matches BinstallError::CrateContext { name: n, err } && n@ == name@
            && spec_resolution_outcome(
            name,
            embedded_req,
            explicit_req,
            curr_version,
            manifest,
            targets@,
            probes@,
            pipeline_results@,
            Err(*err),
        )),
{
    let name_copy = name.clone();
    match resolve_inner(
        name,
        embedded_req,
        explicit_req,
        curr_version,
        manifest,
        targets,
        cli_overrides,
        probes,
        pipeline_results,
    ) {
        Ok(res) => Ok(res),
        Err(e) => Err(e.crate_context(name_copy)),
    }
}

/// A committed winner did win: its probe reported existence and its
/// pipeline succeeded.
pub proof fn lemma_winner_wins(probes: Seq<ProbeOutcome>, oks: Seq<bool>, k: int, i: int)
    requires
        winner_from(probes, oks, k) == Some(i),
    ensures
        0 <= i < probes.len(),
        pair_wins(probes, oks, i),
    decreases probes.len() - k,
{
    if !(k < 0 || k >= probes.len()) && !pair_wins(probes, oks, k) {
        lemma_winner_wins(probes, oks, k + 1, i);
    }
}

/// A pair whose probe reports existence but whose pipeline fails never
/// wins the race: it only eliminates itself, and the scan proceeds to the
/// next candidate pair.
pub proof fn lemma_failed_pipeline_never_wins(probes: Seq<ProbeOutcome>, oks: Seq<bool>, i: int)
    requires
        0 <= i < oks.len(),
        !oks[i],
    ensures
        spec_winner(probes, oks) != Some(i),
{
    if spec_winner(probes, oks) == Some(i) {
        lemma_winner_wins(probes, oks, 0, i);
    }
}

/// With a version constraint both embedded in the package reference and
/// supplied as a separate option, the only outcome the pipeline admits is
/// the conflicting-specifiers error — whatever the manifest, the installed
/// version, or any probe or pipeline outcome says.  The conflict is decided
/// before the manifest stage, so no network access has happened yet.
pub proof fn lemma_conflicting_constraints_are_fatal(
    name: String,
    embedded_req: Option<String>,
    explicit_req: Option<String>,
    curr_version: Option<Version>,
    manifest: Manifest,
    targets: Seq<String>,
    probes: Seq<ProbeOutcome>,
    results: Seq<Option<Vec<BinFile>>>,
    r: Result<Resolution, BinstallError>,
)
    requires
        embedded_req is Some,
        explicit_req is Some,
        spec_resolution_outcome(
            name,
            embedded_req,
            explicit_req,
            curr_version,
            manifest,
            targets,
            probes,
            results,
            r,
        ),
    ensures
        r == Err::<Resolution, BinstallError>(BinstallError::SuperfluousVersionOption),
{
}

/// When the installed version equals the version the manifest resolved to,
/// the only outcome the pipeline admits is `AlreadyUpToDate` — whatever
/// every probe and every pipeline outcome says, because none of them is
/// consulted on this path: no backend probe is ever launched.
pub proof fn lemma_up_to_date_short_circuits(
    name: String,
    explicit_req: Option<String>,
    curr_version: Option<Version>,
    manifest: Manifest,
    targets: Seq<String>,
    probes: Seq<ProbeOutcome>,
    results: Seq<Option<Vec<BinFile>>>,
    r: Result<Resolution, BinstallError>,
)
    requires
        curr_version is Some,
        manifest.package is Some,
        parsed_version(manifest.package->0.version@) is Some,
        version_eq(parsed_version(manifest.package->0.version@)->0, curr_version->0@),
        spec_resolution_outcome(
            name,
            None,
            explicit_req,
            curr_version,
            manifest,
            targets,
            probes,
            results,
            r,
        ),
    ensures
        r == Ok::<Resolution, BinstallError>(Resolution::AlreadyUpToDate),
{
}

/// When no declared binary carries a name, the only outcome the pipeline
/// admits is the no-binaries error — however many unnamed entries the list
/// holds, and whatever every probe and pipeline outcome says.
pub proof fn lemma_no_named_binaries_is_fatal(
    name: String,
    explicit_req: Option<String>,
    manifest: Manifest,
    targets: Seq<String>,
    probes: Seq<ProbeOutcome>,
    results: Seq<Option<Vec<BinFile>>>,
    r: Result<Resolution, BinstallError>,
)
    requires
        manifest.package is Some,
        spec_filter_named(manifest.bin@).len() == 0,
        spec_resolution_outcome(
            name,
            None,
            explicit_req,
            None,
            manifest,
            targets,
            probes,
            results,
            r,
        ),
    ensures
        r == Err::<Resolution, BinstallError>(BinstallError::UnspecifiedBinaries),
{
}

} // verus!
