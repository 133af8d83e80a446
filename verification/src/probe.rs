//! Reading a tool's version out of what it printed.

use crate::version::Version;
use vstd::prelude::*;

verus! {

/// How a candidate executable was found on the search path.
#[derive(Clone, Copy, Debug, PartialEq, Eq, Structural)]
pub enum Convention {
    /// Under the name `{tool}-{major}`.
    VersionedName,
    /// Under the tool's plain name.
    BareName,
}

/// An executable that may be the tool that was asked for.
#[derive(Clone, Debug, PartialEq, Eq)]
pub struct CandidateExecutable {
    pub tool_name: String,
    pub path: String,
    pub discovered_via: Convention,
}

/// A candidate together with the version it reported.
#[derive(Clone, Debug, PartialEq, Eq)]
pub struct ProbedVersion {
    pub candidate: CandidateExecutable,
    pub major: u64,
    pub minor: u64,
    pub patch: u64,
}

/// The text of capture group `group` in the leftmost match of the regular
/// expression `pattern` in `haystack`, as the `regex` crate finds it; `None`
/// where the pattern does not compile, nothing matches, or the group took no
/// part in the match.
pub uninterp spec fn regex_capture(pattern: Seq<char>, haystack: Seq<char>, group: usize) -> Option<
    Seq<char>,
>;

/// The three numbers that `semver::Version::parse` reads from a text, or
/// `None` where it rejects the text.
pub uninterp spec fn semver_parse(text: Seq<char>) -> Option<(u64, u64, u64)>;

/// Compiles `pattern` with `regex::Regex::new`, searches `haystack` with
/// `Regex::captures` and takes the group with `Captures::get`. The contract
/// claims only that the outcome is a function of the three arguments.
#[verifier::external_body]
fn capture_group(pattern: &str, haystack: &str, group: usize) -> (r: Option<String>)
    ensures
        r is Some == regex_capture(pattern@, haystack@, group) is Some,
        r matches Some(text) ==> regex_capture(pattern@, haystack@, group) == Some(text@),
{
    let found = match regex::Regex::new(pattern) {
        Ok(re) => re.captures(haystack),
        Err(_) => None,
    };
    match found {
        Some(groups) => match groups.get(group) {
            Some(m) => Some(m.as_str().to_string()),
            None => None,
        },
        None => None,
    }
}

/// Calls `semver::Version::parse`. The contract claims only that the outcome
/// is a function of the text: the numbers of the parsed version, or `None`
/// on a parse error.
#[verifier::external_body]
fn strict_parse(text: &str) -> (r: Option<(u64, u64, u64)>)
    ensures
        r == semver_parse(text@),
{
    match semver::Version::parse(text) {
        Ok(v) => Some((v.major, v.minor, v.patch)),
        Err(_) => None,
    }
}

/// The pattern that finds a version in a tool's output: the word `version`
/// in any case, optional white space, then digits and dots.
pub open spec fn version_pattern() -> Seq<char> {
    "(?i)version\\s*([\\d.]+)"@
}

/// The version that a captured numeral stands for.
pub open spec fn version_of_capture(captured: Option<Seq<char>>) -> Option<Version> {
    match captured {
        Some(text) => match semver_parse(text) {
            Some(numbers) => Some(Version::of(numbers)),
            None => None,
        },
        None => None,
    }
}

/// The version that a tool's output reports, if any.
pub open spec fn detected_version(output: Seq<char>) -> Option<Version> {
    version_of_capture(regex_capture(version_pattern(), output, 1))
}

/// What a launch of the candidate yields: nothing where it could not be
/// launched, else what its output reports.
pub open spec fn reading(output: Option<String>) -> Option<Version> {
    match output {
        Some(text) => detected_version(text@),
        None => None,
    }
}

/// True where a version was detected and its major number is the requested
/// one. Minor and patch play no part.
pub open spec fn satisfies(detected: Option<Version>, major: u64) -> bool {
    detected matches Some(v) && v.major == major
}

/// Parses the numeral that the pattern captured, if it captured one.
pub fn version_from_capture(captured: Option<&str>) -> (r: Option<Version>)
    ensures
        r == version_of_capture(
            match captured {
                Some(text) => Some(text@),
                None => None,
            },
        ),
{
    match captured {
        Some(text) => match strict_parse(text) {
            Some(numbers) => Some(Version { major: numbers.0, minor: numbers.1, patch: numbers.2 }),
            None => None,
        },
        None => None,
    }
}

/// Finds the version that a tool's captured output reports. Output without
/// a version, or with one that is no semantic version, yields `None`.
pub fn detect_version(output: &str) -> (r: Option<Version>)
    ensures
        r == detected_version(output@),
{
    let captured = capture_group("(?i)version\\s*([\\d.]+)", output, 1);
    match captured {
        Some(text) => version_from_capture(Some(text.as_str())),
        None => version_from_capture(None),
    }
}

/// Tells whether a detected version satisfies a request for `major`.
pub fn accepts(detected: Option<Version>, major: u64) -> (r: bool)
    ensures
        r == satisfies(detected, major),
{
    match detected {
        Some(v) => v.major == major,
        None => false,
    }
}

impl ProbedVersion {
    /// The version that the candidate reported.
    pub open spec fn spec_version(self) -> Version {
        Version { major: self.major, minor: self.minor, patch: self.patch }
    }

    /// Pairs a candidate with the version detected in its output; a
    /// candidate without one is discarded.
    pub fn from_detected(candidate: CandidateExecutable, detected: Option<Version>) -> (r: Option<
        ProbedVersion,
    >)
        ensures
            match detected {
                Some(v) => r == Some(
                    ProbedVersion { candidate, major: v.major, minor: v.minor, patch: v.patch },
                ),
                None => r is None,
            },
    {
        match detected {
            Some(v) => Some(
                ProbedVersion { candidate, major: v.major, minor: v.minor, patch: v.patch },
            ),
            None => None,
        }
    }

    /// Probes a candidate from what its launch printed (`None` where it
    /// could not be launched).
    pub fn probe(candidate: CandidateExecutable, output: Option<String>) -> (r: Option<
        ProbedVersion,
    >)
        ensures
            match reading(output) {
                Some(v) => r == Some(
                    ProbedVersion { candidate, major: v.major, minor: v.minor, patch: v.patch },
                ),
                None => r is None,
            },
    {
        match output {
            Some(text) => {
                let detected = detect_version(text.as_str());
                ProbedVersion::from_detected(candidate, detected)
            },
            None => None,
        }
    }

    /// The version that the candidate reported.
    pub fn version(&self) -> (r: Version)
        ensures
            r == self.spec_version(),
    {
        Version { major: self.major, minor: self.minor, patch: self.patch }
    }
}

} // verus!
