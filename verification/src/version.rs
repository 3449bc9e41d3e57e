//! Semantic versions: their text, their parsing and their order.

use crate::text::{decimal, decimal_text, push_char};
use std::cmp::Ordering;
use vstd::prelude::*;
use vstd::string::StringExecFns;

verus! {

/// The error with which `semver` rejects a text.
#[verifier::external_type_specification]
#[verifier::external_body]
pub struct ExSemverError(semver::Error);

/// How one version stands to another.
#[derive(Clone, Copy, Debug, PartialEq, Eq, Structural)]
pub enum Precedence {
    Lower,
    Same,
    Higher,
}

/// A semantic version: three numbers, a pre-release tag and build metadata,
/// the last two empty where the version has none.
#[derive(Debug, PartialEq, Eq)]
pub struct SemanticVersion {
    pub major: u64,
    pub minor: u64,
    pub patch: u64,
    pub pre: String,
    pub build: String,
}

/// What a [`SemanticVersion`] holds, as mathematical values.
pub struct VersionData {
    pub major: u64,
    pub minor: u64,
    pub patch: u64,
    pub pre: Seq<char>,
    pub build: Seq<char>,
}

impl View for SemanticVersion {
    type V = VersionData;

    open spec fn view(&self) -> VersionData {
        VersionData {
            major: self.major,
            minor: self.minor,
            patch: self.patch,
            pre: self.pre@,
            build: self.build@,
        }
    }
}

/// The version that `semver::Version::parse` reads from `text`, or `None`
/// where it rejects the text.
pub uninterp spec fn parsed_version(text: Seq<char>) -> Option<VersionData>;

/// What `semver` says of why it rejected a text: the error as `Display`
/// writes it.
pub uninterp spec fn rejection_text(err: semver::Error) -> Seq<char>;

/// How `semver` orders the pre-release tag `a` against `b`, or `None` where
/// one of them is no pre-release tag to it.
pub uninterp spec fn prerelease_order(a: Seq<char>, b: Seq<char>) -> Option<Precedence>;

/// How `semver` orders the build metadata `a` against `b`, or `None` where
/// one of them is no build metadata to it.
pub uninterp spec fn build_order(a: Seq<char>, b: Seq<char>) -> Option<Precedence>;

/// The order of two pre-release tags: two versions without one are equal in
/// this, and the rest is as `semver` has it.
pub open spec fn tag_order(a: Seq<char>, b: Seq<char>) -> Option<Precedence> {
    if a.len() == 0 && b.len() == 0 {
        Some(Precedence::Same)
    } else {
        prerelease_order(a, b)
    }
}

/// The order of two pieces of build metadata: two versions without any are
/// equal in this, and the rest is as `semver` has it.
pub open spec fn metadata_order(a: Seq<char>, b: Seq<char>) -> Option<Precedence> {
    if a.len() == 0 && b.len() == 0 {
        Some(Precedence::Same)
    } else {
        build_order(a, b)
    }
}

/// The order of two versions: by major, minor and patch number; between
/// versions that agree in all three by pre-release tag, and between those that
/// agree in that too by build metadata.
pub open spec fn precedence_of(a: VersionData, b: VersionData) -> Option<Precedence> {
    if a.major != b.major {
        Some(if a.major < b.major { Precedence::Lower } else { Precedence::Higher })
    } else if a.minor != b.minor {
        Some(if a.minor < b.minor { Precedence::Lower } else { Precedence::Higher })
    } else if a.patch != b.patch {
        Some(if a.patch < b.patch { Precedence::Lower } else { Precedence::Higher })
    } else {
        match tag_order(a.pre, b.pre) {
            Some(Precedence::Same) => metadata_order(a.build, b.build),
            other => other,
        }
    }
}

/// Whether a version is a plain release: one with neither a pre-release tag
/// nor build metadata.
pub open spec fn is_plain(v: VersionData) -> bool {
    v.pre.len() == 0 && v.build.len() == 0
}

/// Whether `a` is strictly newer than `b`.
pub open spec fn newer_than(a: VersionData, b: VersionData) -> bool {
    precedence_of(a, b) == Some(Precedence::Higher)
}

/// The text of a version: the three numbers with dots between them, then a
/// hyphen and the pre-release tag if there is one, then a plus sign and the
/// build metadata if there is any.
pub open spec fn version_text(v: VersionData) -> Seq<char> {
    decimal(v.major as nat) + seq!['.'] + decimal(v.minor as nat) + seq!['.'] + decimal(
        v.patch as nat,
    ) + (if v.pre.len() > 0 {
        seq!['-'] + v.pre
    } else {
        Seq::empty()
    }) + (if v.build.len() > 0 {
        seq!['+'] + v.build
    } else {
        Seq::empty()
    })
}

/// Parses `text` with `semver::Version::parse` and copies the numbers and the
/// two identifiers out of the version that it returns. Nothing is claimed of
/// the error.
#[verifier::external_body]
fn parse_semver(text: &str) -> (r: Result<SemanticVersion, semver::Error>)
    ensures
        match r {
            Ok(v) => parsed_version(text@) == Some(v@),
            Err(_) => parsed_version(text@) is None,
        },
{
    match semver::Version::parse(text) {
        Ok(v) => Ok(
            SemanticVersion {
                major: v.major,
                minor: v.minor,
                patch: v.patch,
                pre: v.pre.as_str().to_string(),
                build: v.build.as_str().to_string(),
            },
        ),
        Err(e) => Err(e),
    }
}

/// Writes out a `semver::Error` through its `Display`, which words the kind
/// of the error and where in the text it arose.
#[verifier::external_body]
pub(crate) fn rejection_message(err: &semver::Error) -> (r: String)
    ensures
        r@ == rejection_text(*err),
{
    err.to_string()
}

/// Orders two pre-release tags with `Ord::cmp` of `semver::Prerelease`, after
/// `semver::Prerelease::new` has accepted both. Two empty tags are accepted
/// and equal.
#[verifier::external_body]
fn order_prerelease(a: &str, b: &str) -> (r: Option<Precedence>)
    ensures
        r == prerelease_order(a@, b@),
        r == tag_order(a@, b@),
{
    match (semver::Prerelease::new(a), semver::Prerelease::new(b)) {
        (Ok(x), Ok(y)) => Some(
            match x.cmp(&y) {
                Ordering::Less => Precedence::Lower,
                Ordering::Equal => Precedence::Same,
                Ordering::Greater => Precedence::Higher,
            },
        ),
        _ => None,
    }
}

/// Orders two pieces of build metadata with `Ord::cmp` of
/// `semver::BuildMetadata`, after `semver::BuildMetadata::new` has accepted
/// both. Two empty pieces are accepted and equal.
#[verifier::external_body]
fn order_build(a: &str, b: &str) -> (r: Option<Precedence>)
    ensures
        r == build_order(a@, b@),
        r == metadata_order(a@, b@),
{
    match (semver::BuildMetadata::new(a), semver::BuildMetadata::new(b)) {
        (Ok(x), Ok(y)) => Some(
            match x.cmp(&y) {
                Ordering::Less => Precedence::Lower,
                Ordering::Equal => Precedence::Same,
                Ordering::Greater => Precedence::Higher,
            },
        ),
        _ => None,
    }
}

impl Clone for SemanticVersion {
    fn clone(&self) -> (r: Self)
        ensures
            r == *self,
    {
        SemanticVersion {
            major: self.major,
            minor: self.minor,
            patch: self.patch,
            pre: self.pre.clone(),
            build: self.build.clone(),
        }
    }
}

impl SemanticVersion {
    /// The release `major.minor.patch`, with no pre-release tag and no build
    /// metadata.
    pub fn new(major: u64, minor: u64, patch: u64) -> (r: Self)
        ensures
            r@ == (VersionData { major, minor, patch, pre: Seq::empty(), build: Seq::empty() }),
    {
        SemanticVersion { major, minor, patch, pre: String::new(), build: String::new() }
    }

    /// Reads a version from `text`.
    pub fn parse(text: &str) -> (r: Result<Self, semver::Error>)
        ensures
            match r {
                Ok(v) => parsed_version(text@) == Some(v@),
                Err(_) => parsed_version(text@) is None,
            },
    {
        parse_semver(text)
    }

    /// Orders `self` against `other`. The result is `None` only between
    /// versions with the same three numbers of which one holds a pre-release
    /// tag or build metadata that `semver` does not accept.
    pub fn precedence(&self, other: &SemanticVersion) -> (r: Option<Precedence>)
        ensures
            r == precedence_of(self@, other@),
    {
        if self.major != other.major {
            Some(if self.major < other.major { Precedence::Lower } else { Precedence::Higher })
        } else if self.minor != other.minor {
            Some(if self.minor < other.minor { Precedence::Lower } else { Precedence::Higher })
        } else if self.patch != other.patch {
            Some(if self.patch < other.patch { Precedence::Lower } else { Precedence::Higher })
        } else {
            match order_prerelease(self.pre.as_str(), other.pre.as_str()) {
                Some(Precedence::Same) => order_build(self.build.as_str(), other.build.as_str()),
                other_order => other_order,
            }
        }
    }

    /// Whether `self` is strictly newer than `other`.
    pub fn is_newer_than(&self, other: &SemanticVersion) -> (r: bool)
        ensures
            r == newer_than(self@, other@),
    {
        match self.precedence(other) {
            Some(Precedence::Higher) => true,
            _ => false,
        }
    }

    /// Writes the version as text.
    pub fn to_text(&self) -> (r: String)
        ensures
            r@ == version_text(self@),
    {
        let mut s = decimal_text(self.major);
        push_char(&mut s, '.');
        s.append(decimal_text(self.minor).as_str());
        push_char(&mut s, '.');
        s.append(decimal_text(self.patch).as_str());
        if self.pre.as_str().unicode_len() > 0 {
            push_char(&mut s, '-');
            s.append(self.pre.as_str());
        }
        if self.build.as_str().unicode_len() > 0 {
            push_char(&mut s, '+');
            s.append(self.build.as_str());
        }
        proof {
            assert(s@ =~= version_text(self@));
        }
        s
    }
}

/// Plain releases are ordered by their three numbers alone, as triples: any
/// two of them stand in an order, each is equal to itself, and of two that
/// differ one is newer than the other.
pub proof fn law_plain_releases_are_ordered(a: VersionData, b: VersionData)
    requires
        is_plain(a),
        is_plain(b),
    ensures
        precedence_of(a, b) is Some,
        precedence_of(a, b) == Some(Precedence::Same) <==> a.major == b.major && a.minor
            == b.minor && a.patch == b.patch,
        precedence_of(a, b) == Some(Precedence::Lower) <==> a.major < b.major || (a.major
            == b.major && (a.minor < b.minor || (a.minor == b.minor && a.patch < b.patch))),
        newer_than(a, b) <==> precedence_of(b, a) == Some(Precedence::Lower),
        !(newer_than(a, b) && newer_than(b, a)),
{
}

} // verus!
