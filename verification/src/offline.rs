//! Local emulator discovery and the offline query-cache naming scheme.
//!
//! In the offline/native mode, compile-time query validation runs against
//! a local emulator database found under a conventional directory, and
//! describe results are cached in JSON files named by the digest of the
//! SQL text. The filesystem probing itself happens outside this crate;
//! the decisions — which directories to probe, which discovered file to
//! accept, what a cache file is called — are made here.

use vstd::prelude::*;
use vstd::string::*;

use sha2::Digest;

use crate::error::D1Error;
use crate::text::{has_suffix, spec_has_suffix};

verus! {

/// The digest of a byte string as computed by the outside hash
/// implementation; a pure function of the input bytes.
pub uninterp spec fn sha256_of(data: Seq<u8>) -> Seq<u8>;

/// Relies on sha2's `Sha256::digest`: the result depends on the input
/// bytes alone and is always 32 bytes long.
#[verifier::external_body]
fn sha256_digest(data: &[u8]) -> (r: Vec<u8>)
    ensures
        r@ == sha256_of(data@),
        r@.len() == 32,
{
    sha2::Sha256::digest(data).to_vec()
}

/// The sixteen lowercase hex digits in value order.
pub open spec fn hex_digits() -> Seq<char> {
    seq!['0', '1', '2', '3', '4', '5', '6', '7', '8', '9', 'a', 'b', 'c', 'd', 'e', 'f']
}

/// The lowercase hex encoding of a byte string: two digits per byte, in
/// input order.
pub open spec fn hex_of(data: Seq<u8>) -> Seq<char>
    decreases data.len(),
{
    if data.len() == 0 {
        Seq::<char>::empty()
    } else {
        hex_of(data.drop_last()) + seq![
            hex_digits()[(data.last() / 16) as int],
            hex_digits()[(data.last() % 16) as int],
        ]
    }
}

/// Relies on `hex::encode`: the result is the lowercase hex encoding of
/// the input, two digits per byte, in input order.
#[verifier::external_body]
fn hex_encode(data: &Vec<u8>) -> (r: String)
    ensures
        r@ == hex_of(data@),
{
    hex::encode(data)
}

/// The cache file name for one SQL text: `query-<hex digest>.json`.
pub fn cache_file_name(sql: &str) -> (r: String)
    ensures
        r@ == "query-"@ + hex_of(sha256_of(sql.spec_bytes())) + ".json"@,
{
    let bytes = sql.as_bytes_vec();
    let digest = sha256_digest(bytes.as_slice());
    let hex_str = hex_encode(&digest);
    let mut out = String::from_str("query-");
    out.append(hex_str.as_str());
    out.append(".json");
    out
}

/// Where a build runs from: the package directory and the workspace
/// root, as plain path strings.
#[derive(Debug, Clone, PartialEq)]
pub struct Location {
    pub manifest_dir: String,
    pub workspace_root: String,
}

impl Location {
    /// The candidate offline-cache directories, in probe order: the
    /// package's `.sqlx` directory, then the workspace's.
    pub fn dot_sqlx_dir(&self) -> (r: Vec<String>)
        ensures
            r.deep_view() == seq![
                self.manifest_dir@ + "/.sqlx"@,
                self.workspace_root@ + "/.sqlx"@,
            ],
    {
        let mut first = self.manifest_dir.clone();
        first.append("/.sqlx");
        let mut second = self.workspace_root.clone();
        second.append("/.sqlx");
        let mut r: Vec<String> = Vec::new();
        r.push(first);
        r.push(second);
        proof {
            assert(r.deep_view() =~= seq![
                self.manifest_dir@ + "/.sqlx"@,
                self.workspace_root@ + "/.sqlx"@,
            ]);
        }
        r
    }

    /// The candidate emulator-state directories, in probe order.
    pub fn emulator_dir_candidates(&self) -> (r: Vec<String>)
        ensures
            r.deep_view() == seq![
                self.manifest_dir@ + "/.wrangler/state/v3/d1/miniflare-D1DatabaseObject"@,
                self.workspace_root@ + "/.wrangler/state/v3/d1/miniflare-D1DatabaseObject"@,
            ],
    {
        let mut first = self.manifest_dir.clone();
        first.append("/.wrangler/state/v3/d1/miniflare-D1DatabaseObject");
        let mut second = self.workspace_root.clone();
        second.append("/.wrangler/state/v3/d1/miniflare-D1DatabaseObject");
        let mut r: Vec<String> = Vec::new();
        r.push(first);
        r.push(second);
        proof {
            assert(r.deep_view() =~= seq![
                self.manifest_dir@ + "/.wrangler/state/v3/d1/miniflare-D1DatabaseObject"@,
                self.workspace_root@ + "/.wrangler/state/v3/d1/miniflare-D1DatabaseObject"@,
            ]);
        }
        r
    }
}

/// The entries of a discovery directory that name emulator database
/// files, in directory order.
pub open spec fn spec_sqlite_matches(files: Seq<Seq<char>>) -> Seq<Seq<char>>
    decreases files.len(),
{
    if files.len() == 0 {
        Seq::<Seq<char>>::empty()
    } else {
        spec_sqlite_matches(files.drop_last()) + (if spec_has_suffix(
            files.last(),
            ".sqlite"@,
        ) {
            seq![files.last()]
        } else {
            Seq::<Seq<char>>::empty()
        })
    }
}

/// Picks the emulator database among a discovery directory's entries.
/// Exactly one `.sqlite` entry must be present: zero entries fail with a
/// configuration error naming the two required setup commands, and two
/// or more fail because ambiguity about which schema to validate against
/// is never guessed.
pub fn select_sqlite_file(files: &Vec<String>) -> (r: Result<String, D1Error>)
    ensures
        r matches Ok(f) ==> spec_sqlite_matches(files.deep_view()).len() == 1 && f@
            == spec_sqlite_matches(files.deep_view())[0],
        spec_sqlite_matches(files.deep_view()).len() == 1 ==> r is Ok,
        r is Err ==> (r->Err_0 matches D1Error::Configuration { message } && (
        if spec_sqlite_matches(files.deep_view()).len() == 0 {
            message@
                == "no emulator database found; run `wrangler d1 migrations create <BINDING> <MIGRATION>` and `wrangler d1 migrations apply <BINDING> --local` first"@
        } else {
            message@ == "multiple emulator databases found; multiple bindings are not supported"@
        })),
    {
        let n = files.len();
        let mut found: Vec<String> = Vec::new();
        let mut i: usize = 0;
        proof {
            assert(files.deep_view().take(0) =~= Seq::<Seq<char>>::empty());
            assert(found.deep_view() =~= Seq::<Seq<char>>::empty());
        }
        while i < n
            invariant
                i <= n,
                n == files@.len(),
                files.deep_view().len() == n,
                found.deep_view() == spec_sqlite_matches(files.deep_view().take(i as int)),
            decreases n - i,
        {
            let ghost l = files.deep_view();
            let ghost prev = found.deep_view();
            if has_suffix(files[i].as_str(), ".sqlite") {
                found.push(files[i].clone());
                proof {
                    assert(found.deep_view() =~= prev.push(l[i as int]));
                }
            }
            proof {
                assert(l.take(i + 1).drop_last() =~= l.take(i as int));
                assert(l.take(i + 1).last() == l[i as int]);
                if spec_has_suffix(l[i as int], ".sqlite"@) {
                    assert(spec_sqlite_matches(l.take(i + 1)) == spec_sqlite_matches(
                        l.take(i as int),
                    ) + seq![l[i as int]]);
                    assert(prev.push(l[i as int]) =~= prev + seq![l[i as int]]);
                } else {
                    assert(spec_sqlite_matches(l.take(i + 1)) =~= spec_sqlite_matches(
                        l.take(i as int),
                    ));
                }
            }
            i = i + 1;
        }
        proof {
            assert(files.deep_view().take(n as int) =~= files.deep_view());
        }
        if found.len() == 1 {
            let f = found.pop().unwrap();
            Ok(f)
        } else if found.len() == 0 {
            Err(D1Error::Configuration {
                message: String::from_str(
                    "no emulator database found; run `wrangler d1 migrations create <BINDING> <MIGRATION>` and `wrangler d1 migrations apply <BINDING> --local` first",
                ),
            })
        } else {
            Err(D1Error::Configuration {
                message: String::from_str(
                    "multiple emulator databases found; multiple bindings are not supported",
                ),
            })
        }
    }

} // verus!
