//! Toolchain versions, held as plain values.

use vstd::prelude::*;
use crate::text::same_text;

verus! {

/// One dot-separated part of a pre-release tag or of build metadata.
#[derive(Debug, PartialEq, Eq)]
pub enum Identifier {
    /// A part made of digits only.
    Numeric(u64),
    /// A part with letters in it.
    AlphaNumeric(String),
}

/// What an [`Identifier`] holds.
pub enum IdentifierView {
    Numeric(u64),
    AlphaNumeric(Seq<char>),
}

impl View for Identifier {
    type V = IdentifierView;

    open spec fn view(&self) -> IdentifierView {
        match self {
            Identifier::Numeric(n) => IdentifierView::Numeric(*n),
            Identifier::AlphaNumeric(s) => IdentifierView::AlphaNumeric(s@),
        }
    }
}

impl Clone for Identifier {
    fn clone(&self) -> (copy: Identifier)
        ensures
            copy@ == self@,
    {
        match self {
            Identifier::Numeric(n) => Identifier::Numeric(*n),
            Identifier::AlphaNumeric(s) => Identifier::AlphaNumeric(s.clone()),
        }
    }
}

impl Identifier {
    /// Whether two identifiers hold the same value.
    pub fn same(&self, other: &Identifier) -> (same: bool)
        ensures
            same == (self@ == other@),
    {
        match (self, other) {
            (Identifier::Numeric(a), Identifier::Numeric(b)) => *a == *b,
            (Identifier::AlphaNumeric(a), Identifier::AlphaNumeric(b)) => same_text(
                a.as_str(),
                b.as_str(),
            ),
            _ => false,
        }
    }
}

/// The values of a list of identifiers, in order.
pub open spec fn identifier_views(ids: Seq<Identifier>) -> Seq<IdentifierView> {
    ids.map_values(|id: Identifier| id@)
}

/// Copies a list of identifiers.
pub(crate) fn clone_identifiers(ids: &Vec<Identifier>) -> (copy: Vec<Identifier>)
    ensures
        identifier_views(copy@) == identifier_views(ids@),
{
    let mut copy: Vec<Identifier> = Vec::new();
    let mut i: usize = 0;
    while i < ids.len()
        invariant
            i <= ids.len(),
            copy.len() == i,
            forall|j: int| 0 <= j < i ==> copy@[j]@ == ids@[j]@,
        decreases ids.len() - i,
    {
        copy.push(ids[i].clone());
        i += 1;
    }
    assert(identifier_views(copy@) =~= identifier_views(ids@));
    copy
}

/// Whether two lists hold the same identifiers in the same order.
pub(crate) fn same_identifiers(a: &Vec<Identifier>, b: &Vec<Identifier>) -> (same: bool)
    ensures
        same == (identifier_views(a@) == identifier_views(b@)),
{
    if a.len() != b.len() {
        assert(identifier_views(a@).len() != identifier_views(b@).len());
        return false;
    }
    let mut i: usize = 0;
    while i < a.len()
        invariant
            i <= a.len(),
            a.len() == b.len(),
            forall|j: int| 0 <= j < i ==> a@[j]@ == b@[j]@,
        decreases a.len() - i,
    {
        if !a[i].same(&b[i]) {
            assert(identifier_views(a@)[i as int] != identifier_views(b@)[i as int]);
            return false;
        }
        i += 1;
    }
    assert(identifier_views(a@) =~= identifier_views(b@));
    true
}

/// A version of a toolchain: three numbers, a pre-release tag and build
/// metadata, the last two possibly empty.
#[derive(Debug, PartialEq, Eq)]
pub struct Version {
    pub major: u64,
    pub minor: u64,
    pub patch: u64,
    pub pre: Vec<Identifier>,
    pub build: Vec<Identifier>,
}

/// What a [`Version`] holds.
pub struct VersionView {
    pub major: u64,
    pub minor: u64,
    pub patch: u64,
    pub pre: Seq<IdentifierView>,
    pub build: Seq<IdentifierView>,
}

impl View for Version {
    type V = VersionView;

    open spec fn view(&self) -> VersionView {
        VersionView {
            major: self.major,
            minor: self.minor,
            patch: self.patch,
            pre: identifier_views(self.pre@),
            build: identifier_views(self.build@),
        }
    }
}

impl VersionView {
    /// Two versions name the same release when they agree in everything but
    /// build metadata, which takes no part in telling versions apart.
    pub open spec fn same_release(self, other: VersionView) -> bool {
        &&& self.major == other.major
        &&& self.minor == other.minor
        &&& self.patch == other.patch
        &&& self.pre == other.pre
    }
}

/// The text of a version, `1.2.3-beta.1+build.5` for one with all its parts:
/// what the `semver` crate prints for it.
pub uninterp spec fn version_text(version: VersionView) -> Seq<char>;

/// Prints a version with `semver`'s `Display` for `semver::Version`, by way of
/// `to_string`. The version handed to it has the same five fields, each
/// identifier copied variant by variant. The contract names the text that
/// comes back: it claims that the text depends on the version's value alone,
/// and nothing of its characters.
#[verifier::external_body]
pub(crate) fn semver_text(version: &Version) -> (text: String)
    ensures
        text@ == version_text(version@),
{
    let outside = |id: &Identifier| match id {
        Identifier::Numeric(n) => semver::Identifier::Numeric(*n),
        Identifier::AlphaNumeric(s) => semver::Identifier::AlphaNumeric(s.clone()),
    };
    let printed = semver::Version {
        major: version.major,
        minor: version.minor,
        patch: version.patch,
        pre: version.pre.iter().map(outside).collect(),
        build: version.build.iter().map(outside).collect(),
    };
    printed.to_string()
}

impl Clone for Version {
    fn clone(&self) -> (copy: Version)
        ensures
            copy@ == self@,
    {
        Version {
            major: self.major,
            minor: self.minor,
            patch: self.patch,
            pre: clone_identifiers(&self.pre),
            build: clone_identifiers(&self.build),
        }
    }
}

impl Version {
    /// The version `major.minor.patch`, with no pre-release tag and no build
    /// metadata.
    pub fn new(major: u64, minor: u64, patch: u64) -> (version: Version)
        ensures
            version@ == (VersionView {
                major,
                minor,
                patch,
                pre: Seq::<IdentifierView>::empty(),
                build: Seq::<IdentifierView>::empty(),
            }),
    {
        let version = Version { major, minor, patch, pre: Vec::new(), build: Vec::new() };
        assert(version@.pre =~= Seq::<IdentifierView>::empty());
        assert(version@.build =~= Seq::<IdentifierView>::empty());
        version
    }

    /// Whether `self` and `other` name the same release.
    pub fn same_release(&self, other: &Version) -> (same: bool)
        ensures
            same == self@.same_release(other@),
    {
        self.major == other.major && self.minor == other.minor && self.patch == other.patch
            && same_identifiers(&self.pre, &other.pre)
    }

    /// The text of the version, which also names its directory on disk.
    pub fn text(&self) -> (text: String)
        ensures
            text@ == version_text(self@),
    {
        semver_text(self)
    }
}

} // verus!
