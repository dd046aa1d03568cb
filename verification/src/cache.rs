//! The local record of generated commits: one cache file per repository,
//! addressed through an index, with the cache file named by a hash of the
//! repository path. Reading and writing the files is done by the binary
//! layer; the naming scheme and the record-keeping rules live here.

use vstd::prelude::*;
use vstd::std_specs::hash::DefaultHasherAdditionalSpecFns;
use vstd::string::StringSliceAdditionalSpecFns;
use std::collections::hash_map::DefaultHasher;
use std::hash::Hasher;
use crate::strutil::chars_to_string;

verus! {

/// One commit generated by the tool: its hash and a message preview.
#[derive(Debug, Clone)]
pub struct CachedCommit {
    pub hash: String,
    pub message_preview: String,
}

/// All recorded commits of one repository.
#[derive(Debug, Clone)]
pub struct RepoCache {
    pub repo_path: String,
    pub commits: Vec<CachedCommit>,
}

/// The index over all repositories with recorded commits.
#[derive(Debug, Clone)]
pub struct CacheIndex {
    pub repos: Vec<CacheIndexEntry>,
}

/// One index entry: a repository path and its cache file's name.
#[derive(Debug, Clone)]
pub struct CacheIndexEntry {
    pub repo_path: String,
    pub cache_file: String,
}

impl Default for RepoCache {
    fn default() -> (r: Self)
        ensures
            r.repo_path@.len() == 0,
            r.commits@.len() == 0,
    {
        RepoCache { repo_path: String::new(), commits: Vec::new() }
    }
}

impl Default for CacheIndex {
    fn default() -> (r: Self)
        ensures
            r.repos@.len() == 0,
    {
        CacheIndex { repos: Vec::new() }
    }
}

/// The lowercase hexadecimal digit for a value below sixteen.
pub open spec fn spec_hex_digit(d: nat) -> char
    recommends
        d < 16,
{
    if d == 0 {
        '0'
    } else if d == 1 {
        '1'
    } else if d == 2 {
        '2'
    } else if d == 3 {
        '3'
    } else if d == 4 {
        '4'
    } else if d == 5 {
        '5'
    } else if d == 6 {
        '6'
    } else if d == 7 {
        '7'
    } else if d == 8 {
        '8'
    } else if d == 9 {
        '9'
    } else if d == 10 {
        'a'
    } else if d == 11 {
        'b'
    } else if d == 12 {
        'c'
    } else if d == 13 {
        'd'
    } else if d == 14 {
        'e'
    } else {
        'f'
    }
}

/// The sixteen-digit, zero-padded, lowercase hexadecimal rendering of a
/// 64-bit value, most significant digit first.
pub open spec fn spec_hex16(v: u64) -> Seq<char> {
    Seq::new(16, |i: int| spec_hex_digit(((v >> ((15 - i) * 4)) & 0xf) as nat))
}

/// The lowercase hexadecimal digit character for a value below sixteen.
pub(crate) fn hex_digit(d: u64) -> (r: char)
    requires
        d < 16,
    ensures
        r == spec_hex_digit(d as nat),
{
    if d == 0 {
        '0'
    } else if d == 1 {
        '1'
    } else if d == 2 {
        '2'
    } else if d == 3 {
        '3'
    } else if d == 4 {
        '4'
    } else if d == 5 {
        '5'
    } else if d == 6 {
        '6'
    } else if d == 7 {
        '7'
    } else if d == 8 {
        '8'
    } else if d == 9 {
        '9'
    } else if d == 10 {
        'a'
    } else if d == 11 {
        'b'
    } else if d == 12 {
        'c'
    } else if d == 13 {
        'd'
    } else if d == 14 {
        'e'
    } else {
        'f'
    }
}

/// Format a 64-bit value as sixteen hexadecimal digits.
fn to_hex16(v: u64) -> (r: String)
    ensures
        r@ == spec_hex16(v),
{
    let mut cs: Vec<char> = Vec::new();
    let mut i: usize = 0;
    while i < 16
        invariant
            0 <= i <= 16,
            cs@ == spec_hex16(v).take(i as int),
        decreases 16 - i,
    {
        let shift: u64 = ((15 - i) * 4) as u64;
        let d: u64 = (v >> shift) & 0xf;
        proof {
            assert((v >> shift) & 0xf < 16) by (bit_vector);
        }
        cs.push(hex_digit(d));
        proof {
            assert(cs@ =~= spec_hex16(v).take(i as int + 1));
        }
        i = i + 1;
    }
    proof {
        assert(spec_hex16(v).take(16) =~= spec_hex16(v));
    }
    chars_to_string(&cs)
}

/// The cache-file stem for a repository path: the hexadecimal rendering
/// of a 64-bit digest of the path's bytes. The digest is a fixed function
/// of the path, so equal paths always map to the same stem.
pub open spec fn spec_repo_path_hash(path: Seq<u8>) -> Seq<char> {
    spec_hex16(DefaultHasher::spec_finish(seq![path]))
}

/// Hash a repository path into its sixteen-digit cache-file stem.
pub fn repo_path_hash(path: &str) -> (r: String)
    ensures
        r@ == spec_repo_path_hash(path.spec_bytes()),
        r@.len() == 16,
{
    let mut hasher = DefaultHasher::new();
    hasher.write(path.as_bytes());
    proof {
        assert(hasher@ =~= seq![path.spec_bytes()]);
    }
    let v = hasher.finish();
    to_hex16(v)
}

/// The name of a repository's cache file: the path-hash stem plus the
/// configuration-file extension.
pub fn cache_file_name(path: &str) -> (r: String)
    ensures
        r@ == spec_repo_path_hash(path.spec_bytes()) + (".toml")@,
{
    let mut r = repo_path_hash(path);
    r.append(".toml");
    r
}

/// Record one generated commit: make sure the repository is indexed
/// (appending an entry naming its cache file when it is not), and append
/// the commit's hash and message preview to the repository's cache. The
/// binary layer loads both records before and saves both after.
pub fn record_commit(
    index: &mut CacheIndex,
    cache: &mut RepoCache,
    repo_path: &str,
    hash: &str,
    message_preview: &str,
)
    ensures
        (exists|i: int|
            0 <= i < old(index).repos@.len() && (#[trigger] old(
                index,
            ).repos@[i].repo_path)@ == repo_path@) ==> *final(index) == *old(index),
        (forall|i: int|
            0 <= i < old(index).repos@.len() ==> (#[trigger] old(
                index,
            ).repos@[i].repo_path)@ != repo_path@) ==> {
            &&& final(index).repos@.len() == old(index).repos@.len() + 1
            &&& forall|i: int|
                0 <= i < old(index).repos@.len() ==> final(index).repos@[i] == old(
                    index,
                ).repos@[i]
            &&& final(index).repos@.last().repo_path@ == repo_path@
            &&& final(index).repos@.last().cache_file@ == spec_repo_path_hash(
                repo_path.spec_bytes(),
            ) + (".toml")@
        },
        final(cache).repo_path == old(cache).repo_path,
        final(cache).commits@.len() == old(cache).commits@.len() + 1,
        forall|i: int|
            0 <= i < old(cache).commits@.len() ==> final(cache).commits@[i] == old(
                cache,
            ).commits@[i],
        final(cache).commits@.last().hash@ == hash@,
        final(cache).commits@.last().message_preview@ == message_preview@,
{
    let mut indexed: bool = false;
    let n = index.repos.len();
    let mut i: usize = 0;
    while i < n
        invariant
            0 <= i <= n == index.repos@.len(),
            *index == *old(index),
            indexed <==> exists|j: int|
                0 <= j < i && (#[trigger] index.repos@[j].repo_path)@ == repo_path@,
        decreases n - i,
    {
        if crate::strutil::str_eq(index.repos[i].repo_path.as_str(), repo_path) {
            indexed = true;
        }
        i = i + 1;
    }
    if !indexed {
        index.repos.push(
            CacheIndexEntry { repo_path: repo_path.to_owned(), cache_file: cache_file_name(repo_path) },
        );
    }
    cache.commits.push(
        CachedCommit { hash: hash.to_owned(), message_preview: message_preview.to_owned() },
    );
}

} // verus!
