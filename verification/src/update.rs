//! Version-check logic: parsing release versions and deciding whether an
//! update is available. Fetching the latest release tag over the network
//! and running an installer are done by the binary layer.

use vstd::prelude::*;
use crate::strutil::{spec_parse_triple, parse_triple};
use vstd::string::StrSliceExecFns;

verus! {

/// The outcome of comparing the running version against the latest
/// published one.
pub struct VersionCheck {
    pub latest: String,
    pub current: String,
    pub update_available: bool,
}

/// `v` without one leading `'v'`, if it has one.
pub open spec fn spec_strip_v(v: Seq<char>) -> Seq<char> {
    if v.len() > 0 && v[0] == 'v' {
        v.drop_first()
    } else {
        v
    }
}

/// The three numbers of a release version, a leading `'v'` allowed.
pub open spec fn spec_parse_semver(v: Seq<char>) -> Option<(u64, u64, u64)> {
    spec_parse_triple(spec_strip_v(v))
}

/// Parse a release version `X.Y.Z`, tolerating a leading `'v'`.
pub fn parse_semver(version: &str) -> (r: Option<(u64, u64, u64)>)
    ensures
        r == spec_parse_semver(version@),
{
    let n = version.unicode_len();
    if n > 0 && version.get_char(0) == 'v' {
        let rest = version.substring_char(1, n);
        proof {
            assert(version@.subrange(1, n as int) =~= version@.drop_first());
        }
        parse_triple(rest)
    } else {
        parse_triple(version)
    }
}

/// Whether one version triple is strictly newer than another, compared
/// major first, then minor, then patch.
pub open spec fn spec_triple_newer(a: (u64, u64, u64), b: (u64, u64, u64)) -> bool {
    a.0 > b.0 || (a.0 == b.0 && (a.1 > b.1 || (a.1 == b.1 && a.2 > b.2)))
}

/// Decide whether the latest published version is newer than the running
/// one. When either version fails to parse, no update is offered.
pub fn check_version(latest: &str, current: &str) -> (r: VersionCheck)
    ensures
        r.latest@ == latest@,
        r.current@ == current@,
        r.update_available == (match (spec_parse_semver(latest@), spec_parse_semver(
            current@,
        )) {
            (Some(l), Some(c)) => spec_triple_newer(l, c),
            _ => false,
        }),
{
    let update_available = match (parse_semver(latest), parse_semver(current)) {
        (Some(l), Some(c)) => l.0 > c.0 || (l.0 == c.0 && (l.1 > c.1 || (l.1 == c.1 && l.2
            > c.2))),
        _ => false,
    };
    VersionCheck { latest: latest.to_owned(), current: current.to_owned(), update_available }
}

/// The running release version of this crate.
pub fn current_version() -> (r: &'static str)
    ensures
        r@ == ("0.1.0")@,
{
    "0.1.0"
}

} // verus!
