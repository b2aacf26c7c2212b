//! Semantic versions and version-constraint selection.

use vstd::prelude::*;
use vstd::string::StringExecFns;
use crate::errors::BinstallError;

verus! {

/// A parsed semantic version, held as plain values: numeric components plus
/// the pre-release and build-metadata identifier strings.
#[derive(Debug, Clone, PartialEq, Eq)]
pub struct Version {
    pub major: u64,
    pub minor: u64,
    pub patch: u64,
    pub pre: String,
    pub build: String,
}

/// Mathematical image of a `Version`.
pub ghost struct VersionView {
    pub major: u64,
    pub minor: u64,
    pub patch: u64,
    pub pre: Seq<char>,
    pub build: Seq<char>,
}

impl View for Version {
    type V = VersionView;

    open spec fn view(&self) -> VersionView {
        VersionView {
            major: self.major,
            minor: self.minor,
            patch: self.patch,
            pre: self.pre@,
            build: self.build@,
        }
    }
}

/// What `semver` parses a version string to, if anything.
pub uninterp spec fn parsed_version(s: Seq<char>) -> Option<VersionView>;

/// Relies on `semver::Version::parse`: the result is a function of the
/// input string alone, and the `major`/`minor`/`patch`/`pre`/`build`
/// components of a parsed `semver::Version` are exactly what the wrapper
/// copies out here.
#[verifier::external_body]
pub fn parse_version(v: &str) -> (r: Option<Version>)
    ensures
        match r {
            Some(ver) => parsed_version(v@) == Some(ver@),
            None => parsed_version(v@) is None,
        },
{
    match semver::Version::parse(v) {
        Ok(w) => Some(Version {
            major: w.major,
            minor: w.minor,
            patch: w.patch,
            pre: w.pre.as_str().to_string(),
            build: w.build.as_str().to_string(),
        }),
        Err(_) => None,
    }
}

/// Equality of two versions, component by component.  This is the equality
/// `semver` gives `Version`: every component participates, including the
/// build metadata.
pub open spec fn version_eq(a: VersionView, b: VersionView) -> bool {
    &&& a.major == b.major
    &&& a.minor == b.minor
    &&& a.patch == b.patch
    &&& a.pre == b.pre
    &&& a.build == b.build
}

/// Executable counterpart of [`version_eq`].
pub fn version_equal(a: &Version, b: &Version) -> (r: bool)
    ensures
        r == version_eq(a@, b@),
{
    a.major == b.major && a.minor == b.minor && a.patch == b.patch && a.pre == b.pre
        && a.build == b.build
}

/// Compare the version a manifest resolved to with the version already
/// installed, if any.
///
/// With nothing installed the answer is `false` and the version string is
/// not even parsed; with something installed, an unparsable version string
/// is fatal, and otherwise the answer is exact semantic-version equality.
pub fn check_curr_version(version: &String, curr: &Option<Version>) -> (r: Result<
    bool,
    BinstallError,
>)
    ensures
        curr is None ==> r == Ok::<bool, BinstallError>(false),
        curr is Some && parsed_version(version@) is None ==> ({
            &&& r matches Err(BinstallError::VersionParse { v })
            &&& v@ == version@
        }),
        curr is Some && parsed_version(version@) is Some ==> r == Ok::<bool, BinstallError>(
            version_eq(parsed_version(version@)->0, curr->0@),
        ),
{
    match curr {
        None => Ok(false),
        Some(c) => match parse_version(version.as_str()) {
            None => Err(BinstallError::VersionParse { v: version.clone() }),
            Some(w) => Ok(version_equal(&w, c)),
        },
    }
}

/// Pick the effective version constraint for a resolution.
///
/// The constraint may be embedded in the package reference or supplied as a
/// separate option; giving both is an error, giving neither means "any
/// version".
pub fn select_version_req(embedded: &Option<String>, explicit: &Option<String>) -> (r: Result<
    String,
    BinstallError,
>)
    ensures
        embedded is Some && explicit is Some ==> r == Err::<String, BinstallError>(
            BinstallError::SuperfluousVersionOption,
        ),
        embedded is Some && explicit is None ==> r is Ok && r->Ok_0@ == embedded->0@,
        embedded is None && explicit is Some ==> r is Ok && r->Ok_0@ == explicit->0@,
        embedded is None && explicit is None ==> r is Ok && r->Ok_0@ == "*"@,
{
    match (embedded, explicit) {
        (Some(v), None) => Ok(v.clone()),
        (None, Some(v)) => Ok(v.clone()),
        (Some(_), Some(_)) => Err(BinstallError::SuperfluousVersionOption),
        (None, None) => Ok(String::from_str("*")),
    }
}

} // verus!
