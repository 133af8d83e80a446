//! The version a user asks for.

use crate::text::{decimal, decimal_reads_back, is_digit, push_decimal};
use vstd::prelude::*;
use vstd::string::*;

verus! {

/// A semantic version, reduced to its three numbers.
#[derive(Clone, Copy, Debug, PartialEq, Eq, Structural)]
pub struct Version {
    pub major: u64,
    pub minor: u64,
    pub patch: u64,
}

/// A semantic version as a user writes it: the three numbers, and the
/// pre-release and build identifiers, each empty where there is none.
#[derive(Clone, Debug, PartialEq, Eq)]
pub struct RequestedVersion {
    pub numbers: Version,
    pub pre: String,
    pub build: String,
}

/// What the user asked for: a semantic version, or the raw text where it is
/// none.
#[derive(Clone, Debug, PartialEq, Eq)]
pub enum SpecifiedVersion {
    Semantic(RequestedVersion),
    Path(String),
}

/// The three numbers and the pre-release and build identifiers that
/// `lenient_semver::parse` reads from a text, or `None` where it rejects
/// the text.
pub uninterp spec fn lenient_semver_parse(text: Seq<char>) -> Option<
    (u64, u64, u64, Seq<char>, Seq<char>),
>;

/// Calls `lenient_semver::parse`. The contract claims only that the outcome
/// is a function of the text: the five fields of the parsed version, or
/// `None` on a parse error.
#[verifier::external_body]
fn lenient_parse(text: &str) -> (r: Option<(u64, u64, u64, String, String)>)
    ensures
        r is Some == lenient_semver_parse(text@) is Some,
        r matches Some(v) ==> lenient_semver_parse(text@) == Some((v.0, v.1, v.2, v.3@, v.4@)),
{
    match lenient_semver::parse(text) {
        Ok(v) => Some(
            (v.major, v.minor, v.patch, v.pre.as_str().to_string(), v.build.as_str().to_string()),
        ),
        Err(_) => None,
    }
}

/// The fields of a parse by their views.
pub open spec fn parse_view(parsed: Option<(u64, u64, u64, String, String)>) -> Option<
    (u64, u64, u64, Seq<char>, Seq<char>),
> {
    match parsed {
        Some(v) => Some((v.0, v.1, v.2, v.3@, v.4@)),
        None => None,
    }
}

impl RequestedVersion {
    /// The five fields, the identifiers by their text.
    pub open spec fn parts(self) -> (u64, u64, u64, Seq<char>, Seq<char>) {
        (self.numbers.major, self.numbers.minor, self.numbers.patch, self.pre@, self.build@)
    }

    /// The text `major.minor.patch`, then a hyphen and the pre-release
    /// identifier where there is one, then a plus sign and the build
    /// identifier where there is one.
    pub open spec fn rendered(self) -> Seq<char> {
        self.numbers.rendered() + (if self.pre@.len() > 0 {
            seq!['-'] + self.pre@
        } else {
            Seq::empty()
        }) + (if self.build@.len() > 0 {
            seq!['+'] + self.build@
        } else {
            Seq::empty()
        })
    }

    /// The version of three numbers, without identifiers.
    pub fn plain(numbers: Version) -> (r: RequestedVersion)
        ensures
            r.parts() == (
                numbers.major,
                numbers.minor,
                numbers.patch,
                Seq::<char>::empty(),
                Seq::<char>::empty(),
            ),
    {
        RequestedVersion { numbers, pre: String::new(), build: String::new() }
    }

    /// Renders the version with its identifiers.
    pub fn render(&self) -> (r: String)
        ensures
            r@ == self.rendered(),
    {
        let mut out = self.numbers.render();
        proof {
            reveal_strlit("-");
            reveal_strlit("+");
        }
        if !self.pre.as_str().is_empty() {
            out.append("-");
            out.append(self.pre.as_str());
        }
        if !self.build.as_str().is_empty() {
            out.append("+");
            out.append(self.build.as_str());
        }
        assert(out@ =~= self.rendered());
        out
    }
}

impl Version {
    /// The version with the given numbers.
    pub open spec fn of(numbers: (u64, u64, u64)) -> Version {
        Version { major: numbers.0, minor: numbers.1, patch: numbers.2 }
    }

    /// The text `major.minor.patch`.
    pub open spec fn rendered(self) -> Seq<char> {
        decimal(self.major as nat).push('.') + decimal(self.minor as nat).push('.') + decimal(
            self.patch as nat,
        )
    }

    pub fn new(major: u64, minor: u64, patch: u64) -> (r: Version)
        ensures
            r == (Version { major, minor, patch }),
    {
        Version { major, minor, patch }
    }

    /// Renders the version as `major.minor.patch`.
    pub fn render(&self) -> (r: String)
        ensures
            r@ == self.rendered(),
    {
        let mut out = String::new();
        proof {
            reveal_strlit(".");
        }
        push_decimal(&mut out, self.major);
        out.append(".");
        push_decimal(&mut out, self.minor);
        out.append(".");
        push_decimal(&mut out, self.patch);
        assert(out@ =~= self.rendered());
        out
    }
}

/// Two texts that each begin with a run of digits and a dot are the same
/// only where the runs are the same and the rests are.
proof fn split_at_dot(x1: Seq<char>, r1: Seq<char>, x2: Seq<char>, r2: Seq<char>)
    requires
        forall|i: int| 0 <= i < x1.len() ==> is_digit(#[trigger] x1[i]),
        forall|i: int| 0 <= i < x2.len() ==> is_digit(#[trigger] x2[i]),
        x1.push('.') + r1 == x2.push('.') + r2,
    ensures
        x1 == x2,
        r1 == r2,
{
    let s1 = x1.push('.') + r1;
    let s2 = x2.push('.') + r2;
    assert(s1.len() == s2.len());
    if x1.len() < x2.len() {
        assert(s1[x1.len() as int] == '.');
        assert(s2[x1.len() as int] == x2[x1.len() as int]);
        assert(is_digit(x2[x1.len() as int]));
    }
    if x2.len() < x1.len() {
        assert(s2[x2.len() as int] == '.');
        assert(s1[x2.len() as int] == x1[x2.len() as int]);
        assert(is_digit(x1[x2.len() as int]));
    }
    assert(x1.len() == x2.len());
    assert forall|i: int| 0 <= i < x1.len() implies x1[i] == x2[i] by {
        assert(s1[i] == x1[i]);
        assert(s2[i] == x2[i]);
    }
    assert(x1 =~= x2);
    assert(r1.len() == r2.len());
    assert forall|j: int| 0 <= j < r1.len() implies r1[j] == r2[j] by {
        assert(s1[x1.len() + 1 + j] == r1[j]);
        assert(s2[x2.len() + 1 + j] == r2[j]);
    }
    assert(r1 =~= r2);
}

/// Rendering loses nothing: two versions with the same rendered text are
/// the same version.
pub proof fn rendering_is_faithful(a: Version, b: Version)
    requires
        a.rendered() == b.rendered(),
    ensures
        a == b,
{
    let (x1, y1, z1) = (
        decimal(a.major as nat),
        decimal(a.minor as nat),
        decimal(a.patch as nat),
    );
    let (x2, y2, z2) = (
        decimal(b.major as nat),
        decimal(b.minor as nat),
        decimal(b.patch as nat),
    );
    decimal_reads_back(a.major as nat);
    decimal_reads_back(a.minor as nat);
    decimal_reads_back(a.patch as nat);
    decimal_reads_back(b.major as nat);
    decimal_reads_back(b.minor as nat);
    decimal_reads_back(b.patch as nat);
    assert(a.rendered() =~= x1.push('.') + (y1.push('.') + z1));
    assert(b.rendered() =~= x2.push('.') + (y2.push('.') + z2));
    split_at_dot(x1, y1.push('.') + z1, x2, y2.push('.') + z2);
    split_at_dot(y1, z1, y2, z2);
}

impl SpecifiedVersion {
    /// What a raw text stands for, given what the lenient parser made of it.
    pub open spec fn matches_parse(
        self,
        raw: Seq<char>,
        parsed: Option<(u64, u64, u64, Seq<char>, Seq<char>)>,
    ) -> bool {
        match parsed {
            Some(parts) => self matches SpecifiedVersion::Semantic(v) && v.parts() == parts,
            None => self matches SpecifiedVersion::Path(p) && p@ == raw,
        }
    }

    /// The requested major version; an opaque text has none.
    pub open spec fn requested_major(self) -> Option<u64> {
        match self {
            SpecifiedVersion::Semantic(v) => Some(v.numbers.major),
            SpecifiedVersion::Path(_) => None,
        }
    }

    /// Builds the value from a raw text and the outcome of the lenient
    /// parser on it: the parsed version, or the text itself, verbatim.
    pub fn from_parse(raw: &str, parsed: Option<(u64, u64, u64, String, String)>) -> (r:
        SpecifiedVersion)
        ensures
            r.matches_parse(raw@, parse_view(parsed)),
            parsed matches Some(v) ==> r == SpecifiedVersion::Semantic(
                RequestedVersion {
                    numbers: Version { major: v.0, minor: v.1, patch: v.2 },
                    pre: v.3,
                    build: v.4,
                },
            ),
    {
        match parsed {
            Some(v) => SpecifiedVersion::Semantic(
                RequestedVersion {
                    numbers: Version { major: v.0, minor: v.1, patch: v.2 },
                    pre: v.3,
                    build: v.4,
                },
            ),
            None => SpecifiedVersion::Path(String::from_str(raw)),
        }
    }

    /// Reads a raw text leniently (`x`, `x.y`, `x.y.z` and more). A text that
    /// is no version is kept verbatim; this never fails.
    pub fn parse(raw: &str) -> (r: SpecifiedVersion)
        ensures
            r.matches_parse(raw@, lenient_semver_parse(raw@)),
    {
        let parsed = lenient_parse(raw);
        SpecifiedVersion::from_parse(raw, parsed)
    }

    /// True for a text that was no semantic version.
    pub fn is_opaque(&self) -> (r: bool)
        ensures
            r == (self.requested_major() is None),
    {
        match self {
            SpecifiedVersion::Semantic(_) => false,
            SpecifiedVersion::Path(_) => true,
        }
    }

    /// The requested major version, if there is one.
    pub fn major(&self) -> (r: Option<u64>)
        ensures
            r == self.requested_major(),
    {
        match self {
            SpecifiedVersion::Semantic(v) => Some(v.numbers.major),
            SpecifiedVersion::Path(_) => None,
        }
    }
}

} // verus!
