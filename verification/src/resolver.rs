//! Download-URL resolution: given the software API's response, pick the
//! requested version (or the advertised latest) and look up its direct
//! download URL.

use vstd::prelude::*;
use vstd::string::StringExecFns;
use crate::server::Software;

verus! {

/// The software API response: the latest version id and a table from
/// version id to direct download URL, kept as ordered pairs.
pub struct PaperApiResponse {
    pub latest: String,
    pub versions: Vec<(String, String)>,
}

/// The version-to-URL pairs of a response, as sequences of characters.
pub open spec fn version_pairs(resp: &PaperApiResponse) -> Seq<(Seq<char>, Seq<char>)> {
    resp.versions@.map_values(|p: (String, String)| (p.0@, p.1@))
}

/// The URL recorded for a version id: that of the first pair carrying it,
/// `None` when no pair does.
pub open spec fn lookup_url(pairs: Seq<(Seq<char>, Seq<char>)>, v: Seq<char>) -> Option<Seq<char>>
    decreases pairs.len(),
{
    if pairs.len() == 0 {
        None
    } else if pairs[0].0 == v {
        Some(pairs[0].1)
    } else {
        lookup_url(pairs.drop_first(), v)
    }
}

/// The version id a request asks for: the explicit one when given, else the
/// response's latest.
pub open spec fn requested_key(resp: &PaperApiResponse, version: Option<&String>) -> Seq<char> {
    match version {
        Some(v) => v@,
        None => resp.latest@,
    }
}

/// Failure to resolve a download URL: the requested version has no entry in
/// the API's table.
#[derive(Debug)]
pub enum ResolveError {
    VersionNotFound(String),
}

/// Resolves the direct download URL for the requested version, or for the
/// response's latest version when none is requested. Succeeds exactly when
/// the API's table carries the chosen version id.
pub fn paper_get_download_link(resp: &PaperApiResponse, version: Option<&String>) -> (r: Result<
    String,
    ResolveError,
>)
    ensures
        r is Ok <==> lookup_url(version_pairs(resp), requested_key(resp, version)) is Some,
        r matches Ok(u) ==> lookup_url(version_pairs(resp), requested_key(resp, version))
            == Some(u@),
        r matches Err(ResolveError::VersionNotFound(v)) ==> v@ == requested_key(resp, version),
{
    let key: &String = match version {
        Some(v) => v,
        None => &resp.latest,
    };
    let ghost k = requested_key(resp, version);
    let ghost pairs = version_pairs(resp);
    let n = resp.versions.len();
    proof {
        assert(pairs.skip(0) =~= pairs);
    }
    let mut i: usize = 0;
    while i < n
        invariant
            key@ == k,
            k == requested_key(resp, version),
            pairs == version_pairs(resp),
            pairs.len() == n == resp.versions.len(),
            i <= n,
            lookup_url(pairs, k) == lookup_url(pairs.skip(i as int), k),
        decreases n - i,
    {
        if resp.versions[i].0 == *key {
            proof {
                assert(pairs[i as int] == (resp.versions@[i as int].0@, resp.versions@[
                    i as int
                ].1@));
                assert(pairs.skip(i as int)[0] == pairs[i as int]);
            }
            return Ok(resp.versions[i].1.clone());
        }
        proof {
            assert(pairs[i as int] == (resp.versions@[i as int].0@, resp.versions@[i as int].1@));
            assert(pairs.skip(i as int)[0] == pairs[i as int]);
            assert(pairs.skip(i as int).drop_first() =~= pairs.skip(i as int + 1));
        }
        i += 1;
    }
    proof {
        assert(pairs.skip(n as int) =~= Seq::<(Seq<char>, Seq<char>)>::empty());
    }
    Err(ResolveError::VersionNotFound(key.clone()))
}

/// Resolves the download URL for the requested software and version. Each
/// distribution resolves through its own API response; only one
/// distribution exists today.
pub fn resolve_download_url(
    software: Software,
    resp: &PaperApiResponse,
    version: Option<&String>,
) -> (r: Result<String, ResolveError>)
    ensures
        r is Ok <==> lookup_url(version_pairs(resp), requested_key(resp, version)) is Some,
        r matches Ok(u) ==> lookup_url(version_pairs(resp), requested_key(resp, version))
            == Some(u@),
        r matches Err(ResolveError::VersionNotFound(v)) ==> v@ == requested_key(resp, version),
{
    match software {
        Software::Paper => paper_get_download_link(resp, version),
    }
}

/// The diagnostic for a failed resolution, naming the missing version.
pub fn resolve_error_message(e: &ResolveError) -> (m: String)
    ensures
        e matches ResolveError::VersionNotFound(v) ==> m@ == "Version "@ + v@
            + " not found in API response."@,
{
    match e {
        ResolveError::VersionNotFound(v) => {
            let mut s = String::from_str("Version ");
            s.append(v.as_str());
            s.append(" not found in API response.");
            s
        },
    }
}

} // verus!
