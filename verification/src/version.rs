//! Version validation: a syntactic prefilter on the requested version string
//! and a membership test against the official version manifest.

use vstd::prelude::*;
use vstd::string::StrSliceExecFns;
use vstd::string::StringExecFns;

verus! {

/// One entry of the official version manifest: a version id and its kind
/// (for instance release or snapshot).
pub struct ApiVanillaVersionEntry {
    pub id: String,
    pub version_type: String,
}

/// The `latest` block of the official version manifest.
pub struct ApiVanillaLatestVersions {
    pub release: String,
    pub snapshot: String,
}

/// The official version manifest: the latest release and snapshot ids and
/// the list of all known versions.
pub struct VanillaApiResponse {
    pub latest: ApiVanillaLatestVersions,
    pub versions: Vec<ApiVanillaVersionEntry>,
}

pub open spec fn is_digit_char(c: char) -> bool {
    '0' <= c && c <= '9'
}

/// A syntactically plausible version string: `1.` followed by one or two
/// digits, optionally followed by `.` and one or two more digits.
pub open spec fn version_syntax_ok(s: Seq<char>) -> bool {
    &&& s.len() >= 3
    &&& s[0] == '1'
    &&& s[1] == '.'
    &&& is_digit_char(s[2])
    &&& {
        ||| s.len() == 3
        ||| (s.len() == 4 && is_digit_char(s[3]))
        ||| (s.len() == 5 && s[3] == '.' && is_digit_char(s[4]))
        ||| (s.len() == 6 && is_digit_char(s[3]) && s[4] == '.' && is_digit_char(s[5]))
        ||| (s.len() == 6 && s[3] == '.' && is_digit_char(s[4]) && is_digit_char(s[5]))
        ||| (s.len() == 7 && is_digit_char(s[3]) && s[4] == '.' && is_digit_char(s[5])
            && is_digit_char(s[6]))
    }
}

fn char_is_digit(c: char) -> (r: bool)
    ensures
        r == is_digit_char(c),
{
    '0' <= c && c <= '9'
}

/// The syntactic prefilter: accepts exactly the strings of the shape
/// `1.<1-2 digits>` or `1.<1-2 digits>.<1-2 digits>`. Makes no network
/// call; the manifest lookup is a separate step.
pub fn is_version_syntax(s: &str) -> (r: bool)
    ensures
        r == version_syntax_ok(s@),
{
    let n = s.unicode_len();
    if n < 3 || n > 7 {
        return false;
    }
    if !(s.get_char(0) == '1' && s.get_char(1) == '.' && char_is_digit(s.get_char(2))) {
        return false;
    }
    if n == 3 {
        true
    } else if n == 4 {
        char_is_digit(s.get_char(3))
    } else if n == 5 {
        s.get_char(3) == '.' && char_is_digit(s.get_char(4))
    } else if n == 6 {
        (char_is_digit(s.get_char(3)) && s.get_char(4) == '.' && char_is_digit(s.get_char(5)))
            || (s.get_char(3) == '.' && char_is_digit(s.get_char(4)) && char_is_digit(
            s.get_char(5),
        ))
    } else {
        char_is_digit(s.get_char(3)) && s.get_char(4) == '.' && char_is_digit(s.get_char(5))
            && char_is_digit(s.get_char(6))
    }
}

/// The requested version occurs among the manifest's version ids.
pub open spec fn manifest_contains(m: &VanillaApiResponse, v: Seq<char>) -> bool {
    exists|i: int| 0 <= i < m.versions@.len() && m.versions@[i].id@ == v
}

/// Outcome of validating a requested version string against the manifest.
#[derive(Clone, Copy, Debug, PartialEq, Eq, Structural)]
pub enum VersionCheck {
    Valid,
    BadSyntax,
    NotInManifest,
}

/// Validates a requested version: first the syntactic prefilter, then
/// membership among the manifest's version ids.
pub fn check_valid_version(manifest: &VanillaApiResponse, version: &String) -> (r: VersionCheck)
    ensures
        r == VersionCheck::Valid <==> version_syntax_ok(version@) && manifest_contains(
            manifest,
            version@,
        ),
        r == VersionCheck::BadSyntax <==> !version_syntax_ok(version@),
        r == VersionCheck::NotInManifest <==> version_syntax_ok(version@) && !manifest_contains(
            manifest,
            version@,
        ),
{
    if !is_version_syntax(version.as_str()) {
        return VersionCheck::BadSyntax;
    }
    let n = manifest.versions.len();
    let mut i: usize = 0;
    while i < n
        invariant
            version_syntax_ok(version@),
            n == manifest.versions.len(),
            i <= n,
            forall|j: int| 0 <= j < i ==> manifest.versions@[j].id@ != version@,
        decreases n - i,
    {
        if manifest.versions[i].id == *version {
            return VersionCheck::Valid;
        }
        i += 1;
    }
    VersionCheck::NotInManifest
}

/// The diagnostic for a failed validation, naming the offending version;
/// `None` when the version is valid.
pub fn version_check_message(r: VersionCheck, version: &String) -> (m: Option<String>)
    ensures
        m is Some <==> r != VersionCheck::Valid,
        r == VersionCheck::BadSyntax ==> m->Some_0@ == "Error: '"@ + version@
            + "' is not a valid version number."@,
        r == VersionCheck::NotInManifest ==> m->Some_0@ == "Error: Version "@ + version@
            + " not found in version manifest."@,
{
    match r {
        VersionCheck::Valid => None,
        VersionCheck::BadSyntax => {
            let mut s = String::from_str("Error: '");
            s.append(version.as_str());
            s.append("' is not a valid version number.");
            Some(s)
        },
        VersionCheck::NotInManifest => {
            let mut s = String::from_str("Error: Version ");
            s.append(version.as_str());
            s.append(" not found in version manifest.");
            Some(s)
        },
    }
}

} // verus!
