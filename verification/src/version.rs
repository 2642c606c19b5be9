//! Semantic versions and version requirements, as `semver` reads them.

use crate::text::{
    decimal, law_decimal_reads_back, lemma_split_first, lemma_split_whole, split,
};
use vstd::prelude::*;

verus! {

/// A semantic version.
#[derive(Debug)]
pub struct Version {
    pub major: u64,
    pub minor: u64,
    pub patch: u64,
    /// The pre-release identifiers, empty for a release.
    pub pre: String,
    /// The build metadata, empty where there is none.
    pub build: String,
}

/// The parts of a version: major, minor, patch, pre-release, build metadata.
pub type VersionParts = (u64, u64, u64, Seq<char>, Seq<char>);

impl View for Version {
    type V = VersionParts;

    open spec fn view(&self) -> VersionParts {
        (self.major, self.minor, self.patch, self.pre@, self.build@)
    }
}

/// The release `major.minor.patch` in writing.
pub open spec fn release_text(major: nat, minor: nat, patch: nat) -> Seq<char> {
    decimal(major) + seq!['.'] + decimal(minor) + seq!['.'] + decimal(patch)
}

/// The release with these numbers in writing.
pub open spec fn release(numbers: (u64, u64, u64)) -> Seq<char> {
    release_text(numbers.0 as nat, numbers.1 as nat, numbers.2 as nat)
}

/// Whether a text asks for the numbers `least`: it writes all three, or leaves out
/// the last ones where they are 0.
pub open spec fn asks_for(text: Seq<char>, least: (u64, u64, u64)) -> bool {
    ||| text == release(least)
    ||| least.2 == 0 && text == decimal(least.0 as nat) + seq!['.'] + decimal(least.1 as nat)
    ||| least.1 == 0 && least.2 == 0 && text == decimal(least.0 as nat)
}

/// Whether the numbers `a` come before the numbers `b`, compared from left to right.
pub open spec fn below(a: (u64, u64, u64), b: (u64, u64, u64)) -> bool {
    a.0 < b.0 || (a.0 == b.0 && (a.1 < b.1 || (a.1 == b.1 && a.2 < b.2)))
}

/// The numbers of a version.
pub open spec fn numbers(v: VersionParts) -> (u64, u64, u64) {
    (v.0, v.1, v.2)
}

/// What `semver::Version::parse` makes of a text: the parts of the version, or
/// the words of the error.
pub uninterp spec fn semver_version(text: Seq<char>) -> Result<
    (u64, u64, u64, Seq<char>, Seq<char>),
    Seq<char>,
>;

/// Whether `semver::VersionReq::parse` accepts a text, or the words of the error.
pub uninterp spec fn semver_requirement(text: Seq<char>) -> Result<(), Seq<char>>;

/// Whether one version, in writing, is at most another by the order that
/// `semver::Version` documents.
pub uninterp spec fn semver_at_most(a: Seq<char>, b: Seq<char>) -> bool;

/// Whether `semver::VersionReq::matches` holds of a requirement and a version,
/// both in writing.
pub uninterp spec fn semver_matches(requirement: Seq<char>, version: Seq<char>) -> bool;

/// `semver::Version::parse`. Its result is named; of three decimal numbers with
/// dots between them it is the release with these numbers.
#[verifier::external_body]
pub(crate) fn parse_version(text: &str) -> (r: Result<Version, String>)
    ensures
        match r {
            Ok(v) => semver_version(text@) == Ok::<VersionParts, Seq<char>>(v@),
            Err(e) => semver_version(text@) == Err::<VersionParts, Seq<char>>(e@),
        },
        forall|n: (u64, u64, u64)|
            text@ == #[trigger] release(n) ==> r is Ok && r->Ok_0@ == (
                n.0,
                n.1,
                n.2,
                Seq::<char>::empty(),
                Seq::<char>::empty(),
            ),
{
    match semver::Version::parse(text) {
        Ok(v) => Ok(
            Version {
                major: v.major,
                minor: v.minor,
                patch: v.patch,
                pre: v.pre.as_str().to_owned(),
                build: v.build.as_str().to_owned(),
            },
        ),
        Err(e) => Err(e.to_string()),
    }
}

/// Whether `at_most` can be whether `a` is at most `b`, as far as their numbers,
/// their being pre-releases, or their being equal decide.
pub open spec fn fits_order(a: VersionParts, b: VersionParts, at_most: bool) -> bool {
    &&& below(numbers(a), numbers(b)) ==> at_most
    &&& below(numbers(b), numbers(a)) ==> !at_most
    &&& numbers(a) == numbers(b) && a.3.len() > 0 && b.3.len() == 0 ==> at_most
    &&& numbers(a) == numbers(b) && a.3.len() == 0 && b.3.len() > 0 ==> !at_most
    &&& a == b ==> at_most
}

/// `<=` on two `semver::Version`s. Its result is named. The order is total; the
/// numbers decide where they differ; with the same numbers a pre-release comes
/// before the release; and a version is at most itself.
#[verifier::external_body]
pub(crate) fn version_at_most(a: &str, b: &str) -> (r: bool)
    requires
        semver_version(a@) is Ok,
        semver_version(b@) is Ok,
    ensures
        r == semver_at_most(a@, b@),
        !r ==> semver_at_most(b@, a@),
        fits_order(semver_version(a@)->Ok_0, semver_version(b@)->Ok_0, r),
{
    match (semver::Version::parse(a), semver::Version::parse(b)) {
        (Ok(x), Ok(y)) => x <= y,
        _ => false,
    }
}

/// `semver::VersionReq::parse`. Its result is named; `>=` in front of one, two or
/// three decimal numbers with dots between them is accepted.
#[verifier::external_body]
pub(crate) fn parse_requirement(text: &str) -> (r: Result<(), String>)
    ensures
        match r {
            Ok(_) => semver_requirement(text@) == Ok::<(), Seq<char>>(()),
            Err(e) => semver_requirement(text@) == Err::<(), Seq<char>>(e@),
        },
        forall|least: Seq<char>, n: (u64, u64, u64)|
            text@ == ">="@ + least && #[trigger] asks_for(least, n) ==> r is Ok,
{
    match semver::VersionReq::parse(text) {
        Ok(_) => Ok(()),
        Err(e) => Err(e.to_string()),
    }
}

/// `semver::VersionReq::matches`. Its result is named; three decimal numbers with
/// dots between them match `>=` in front of one, two or three such numbers exactly
/// when they are not below those, where numbers that are left out count as 0.
#[verifier::external_body]
pub(crate) fn requirement_matches(requirement: &str, version: &str) -> (r: bool)
    requires
        semver_requirement(requirement@) is Ok,
        semver_version(version@) is Ok,
    ensures
        r == semver_matches(requirement@, version@),
        forall|actual: (u64, u64, u64), least: Seq<char>, n: (u64, u64, u64)|
            version@ == #[trigger] release(actual) && requirement@ == ">="@ + least
                && #[trigger] asks_for(least, n) ==> r == !below(actual, n),
{
    match (semver::VersionReq::parse(requirement), semver::Version::parse(version)) {
        (Ok(req), Ok(actual)) => req.matches(&actual),
        _ => false,
    }
}

// ----------------------------------------------------------------------- laws

/// Numbers are compared from left to right: the first ones that differ decide, and
/// numbers that are all the same are not below each other.
pub proof fn law_first_difference_decides(a: (u64, u64, u64), b: (u64, u64, u64))
    ensures
        a.0 != b.0 ==> (below(a, b) <==> a.0 < b.0),
        a.0 == b.0 && a.1 != b.1 ==> (below(a, b) <==> a.1 < b.1),
        a.0 == b.0 && a.1 == b.1 ==> (below(a, b) <==> a.2 < b.2),
{
}

/// A release is written as its three numbers, in order and with dots between them.
pub proof fn law_release_is_its_numbers(n: (u64, u64, u64))
    ensures
        split(release(n), '.') == seq![
            decimal(n.0 as nat),
            decimal(n.1 as nat),
            decimal(n.2 as nat),
        ],
{
    let (a, b, c) = (decimal(n.0 as nat), decimal(n.1 as nat), decimal(n.2 as nat));
    law_decimal_reads_back(n.0 as nat);
    law_decimal_reads_back(n.1 as nat);
    law_decimal_reads_back(n.2 as nat);
    assert(!a.contains('.') && !b.contains('.') && !c.contains('.'));
    assert(release(n) =~= a + seq!['.'] + (b + seq!['.'] + c));
    lemma_split_first(a, b + seq!['.'] + c, '.');
    lemma_split_first(b, c, '.');
    lemma_split_whole(c, '.');
    assert(split(release(n), '.') =~= seq![a, b, c]);
}

/// Releases that are written alike have the same numbers.
pub proof fn law_releases_read_back(a: (u64, u64, u64), b: (u64, u64, u64))
    requires
        release(a) == release(b),
    ensures
        a == b,
{
    law_release_is_its_numbers(a);
    law_release_is_its_numbers(b);
    let (one, other) = (split(release(a), '.'), split(release(b), '.'));
    assert(one[0] == other[0] && one[1] == other[1] && one[2] == other[2]);
    law_decimal_reads_back(a.0 as nat);
    law_decimal_reads_back(a.1 as nat);
    law_decimal_reads_back(a.2 as nat);
    law_decimal_reads_back(b.0 as nat);
    law_decimal_reads_back(b.1 as nat);
    law_decimal_reads_back(b.2 as nat);
}

} // verus!
