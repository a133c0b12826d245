//! Schema versions: `major.minor.patch` triples, their order, their text.
//!
//! Text is read with the `semver` crate. Schema versions carry neither a
//! pre-release nor build metadata; a version text that has either is refused.

use vstd::prelude::*;

verus! {

/// A schema version `major.minor.patch`.
#[derive(Debug, Clone, Copy, PartialEq, Eq, Structural)]
pub struct Version {
    pub major: u64,
    pub minor: u64,
    pub patch: u64,
}

/// Why a version text was refused.
#[derive(Debug, Clone, PartialEq, Eq, Structural)]
pub enum VersionError {
    /// `semver` does not accept the text.
    Invalid,
    /// The text is a valid semantic version with a pre-release or build part.
    NotPlain,
}

/// Semantic-version precedence on plain versions: lexicographic on the triple.
pub open spec fn version_lt(a: Version, b: Version) -> bool {
    ||| a.major < b.major
    ||| (a.major == b.major && a.minor < b.minor)
    ||| (a.major == b.major && a.minor == b.minor && a.patch < b.patch)
}

/// The digit character of `d < 10`.
pub open spec fn digit_char(d: nat) -> char {
    if d == 0 {
        '0'
    } else if d == 1 {
        '1'
    } else if d == 2 {
        '2'
    } else if d == 3 {
        '3'
    } else if d == 4 {
        '4'
    } else if d == 5 {
        '5'
    } else if d == 6 {
        '6'
    } else if d == 7 {
        '7'
    } else if d == 8 {
        '8'
    } else {
        '9'
    }
}

/// Decimal notation of a natural number, without leading zeros.
pub open spec fn decimal_text(n: nat) -> Seq<char>
    decreases n,
{
    if n < 10 {
        seq![digit_char(n)]
    } else {
        decimal_text(n / 10).push(digit_char(n % 10))
    }
}

/// `major.minor.patch` in decimal.
pub open spec fn version_text(v: Version) -> Seq<char> {
    decimal_text(v.major as nat) + seq!['.'] + decimal_text(v.minor as nat) + seq!['.']
        + decimal_text(v.patch as nat)
}

/// What `semver::Version::parse` gives for a text: major, minor, patch,
/// pre-release and build metadata, or nothing when it refuses the text.
pub uninterp spec fn semver_parse(text: Seq<char>) -> Option<(u64, u64, u64, Seq<char>, Seq<char>)>;

/// `semver::Version::parse`, its parts handed out as plain values.
///
/// Claimed: the outcome is a function of the text alone (named
/// `semver_parse`), and a plain decimal `major.minor.patch` (no leading zeros,
/// as `version_text` writes it) parses to those three numbers with empty
/// pre-release and build: `numeric_identifier` reads each decimal number that
/// fits a `u64` and has no leading zero, and `Version::new` leaves the other
/// parts empty. The rest of the grammar is not restated.
#[verifier::external_body]
fn semver_parse_parts(text: &str) -> (r: Option<(u64, u64, u64, String, String)>)
    ensures
        match r {
            Some(t) => semver_parse(text@) == Some((t.0, t.1, t.2, t.3@, t.4@)),
            None => semver_parse(text@) is None,
        },
        forall|v: Version| text@ == #[trigger] version_text(v) ==> (r is Some && (r->0).0 == v.major
            && (r->0).1 == v.minor && (r->0).2 == v.patch && (r->0).3@.len() == 0 && (r->0).4@.len() == 0),
{
    match semver::Version::parse(text) {
        Ok(v) => Some((v.major, v.minor, v.patch, v.pre.as_str().to_string(), v.build.as_str().to_string())),
        Err(_) => None,
    }
}

/// The text of one decimal digit.
fn digit_str(d: u64) -> (r: &'static str)
    requires
        d < 10,
    ensures
        r@ == seq![digit_char(d as nat)],
{
    proof {
        reveal_strlit("0");
        reveal_strlit("1");
        reveal_strlit("2");
        reveal_strlit("3");
        reveal_strlit("4");
        reveal_strlit("5");
        reveal_strlit("6");
        reveal_strlit("7");
        reveal_strlit("8");
        reveal_strlit("9");
    }
    if d == 0 {
        "0"
    } else if d == 1 {
        "1"
    } else if d == 2 {
        "2"
    } else if d == 3 {
        "3"
    } else if d == 4 {
        "4"
    } else if d == 5 {
        "5"
    } else if d == 6 {
        "6"
    } else if d == 7 {
        "7"
    } else if d == 8 {
        "8"
    } else {
        "9"
    }
}

/// Decimal notation of `n`.
pub fn decimal(n: u64) -> (r: String)
    ensures
        r@ == decimal_text(n as nat),
    decreases n,
{
    if n < 10 {
        String::from_str(digit_str(n))
    } else {
        let mut s = decimal(n / 10);
        s.append(digit_str(n % 10));
        s
    }
}

impl Version {
    /// The version `major.minor.patch`.
    pub fn new(major: u64, minor: u64, patch: u64) -> (r: Version)
        ensures
            r == (Version { major, minor, patch }),
    {
        Version { major, minor, patch }
    }

    /// Reads a plain schema version.
    ///
    /// `Err(Invalid)` when `semver` refuses the text, `Err(NotPlain)` when it
    /// carries a pre-release or build part, else the parsed triple.
    pub fn parse(text: &str) -> (r: Result<Version, VersionError>)
        ensures
            match semver_parse(text@) {
                None => r == Err::<Version, VersionError>(VersionError::Invalid),
                Some(t) => if t.3.len() == 0 && t.4.len() == 0 {
                    r == Ok::<Version, VersionError>(Version { major: t.0, minor: t.1, patch: t.2 })
                } else {
                    r == Err::<Version, VersionError>(VersionError::NotPlain)
                },
            },
            forall|v: Version| text@ == #[trigger] version_text(v) ==> r == Ok::<Version, VersionError>(v),
    {
        let parts = semver_parse_parts(text);
        proof {
            assert forall|v: Version| text@ == #[trigger] version_text(v) implies parts matches Some(t) && t.0 == v.major
                && t.1 == v.minor && t.2 == v.patch && t.3@.len() == 0 && t.4@.len() == 0 by {
            }
        }
        match parts {
            None => Err(VersionError::Invalid),
            Some((major, minor, patch, pre, build)) => {
                if pre.as_str().unicode_len() == 0 && build.as_str().unicode_len() == 0 {
                    Ok(Version { major, minor, patch })
                } else {
                    Err(VersionError::NotPlain)
                }
            },
        }
    }

    /// `major.minor.patch`, as `semver` displays a plain version.
    pub fn to_text(&self) -> (r: String)
        ensures
            r@ == version_text(*self),
    {
        let mut s = decimal(self.major);
        s.append(".");
        let minor = decimal(self.minor);
        s.append(minor.as_str());
        s.append(".");
        let patch = decimal(self.patch);
        s.append(patch.as_str());
        proof {
            reveal_strlit(".");
        }
        s
    }

    /// Whether this version has lower precedence than `other`.
    pub fn precedes(&self, other: &Version) -> (r: bool)
        ensures
            r == version_lt(*self, *other),
    {
        self.major < other.major || (self.major == other.major && self.minor < other.minor) || (
        self.major == other.major && self.minor == other.minor && self.patch < other.patch)
    }
}

/// Precedence is a strict order: irreflexive, transitive, and total on distinct versions.
pub proof fn lemma_version_order(a: Version, b: Version, c: Version)
    ensures
        !version_lt(a, a),
        version_lt(a, b) && version_lt(b, c) ==> version_lt(a, c),
        a != b ==> (version_lt(a, b) || version_lt(b, a)),
        !(version_lt(a, b) && version_lt(b, a)),
{
}

} // verus!
