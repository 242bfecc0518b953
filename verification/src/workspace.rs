//! Workspace layout: the generated workspace name and its place under the
//! shared temp parent, the acceptance marker, and the plan for copying
//! plugin files into the `plugins` subdirectory.

use vstd::prelude::*;
use vstd::string::StrSliceExecFns;
use vstd::string::StringExecFns;
use crate::server::Software;
use crate::server::software_label;
use crate::server::software_label_str;

verus! {

/// Alphanumeric ASCII: a digit or a letter of either case.
pub open spec fn is_alphanumeric_char(c: char) -> bool {
    ('0' <= c && c <= '9') || ('a' <= c && c <= 'z') || ('A' <= c && c <= 'Z')
}

/// Relies on rand's `Alphanumeric` distribution through `SampleString`:
/// it appends exactly the asked-for number of characters, each drawn from
/// the 62 alphanumeric ASCII characters. Nothing is assumed about which
/// characters come back.
#[verifier::external_body]
pub fn generate_random_uuid() -> (r: String)
    ensures
        r@.len() == 8,
        forall|i: int| 0 <= i < r@.len() ==> is_alphanumeric_char(#[trigger] r@[i]),
{
    rand::distr::SampleString::sample_string(&rand::distr::Alphanumeric, &mut rand::rng(), 8)
}

/// The name of a generated workspace folder: software label, version and
/// the random suffix.
pub open spec fn workspace_dir_name_spec(
    software: Software,
    version: Seq<char>,
    suffix: Seq<char>,
) -> Seq<char> {
    software_label(software) + ":"@ + version + "-"@ + suffix
}

/// Builds the name of a generated workspace folder.
pub fn workspace_dir_name(software: Software, version: &String, suffix: &String) -> (r: String)
    ensures
        r@ == workspace_dir_name_spec(software, version@, suffix@),
{
    let mut s = String::from_str(software_label_str(software));
    s.append(":");
    s.append(version.as_str());
    s.append("-");
    s.append(suffix.as_str());
    s
}

/// The fixed parent folder that keeps every generated workspace
/// discoverable under one namespace.
pub open spec fn workspace_parent_spec(temp_root: Seq<char>) -> Seq<char> {
    temp_root + "/mcdevkit"@
}

/// The full path of a generated workspace: the shared parent, then the
/// generated folder name.
pub open spec fn workspace_path_spec(temp_root: Seq<char>, dir_name: Seq<char>) -> Seq<char> {
    workspace_parent_spec(temp_root) + "/"@ + dir_name
}

/// Builds the shared parent path under a temp root.
pub fn workspace_parent(temp_root: &String) -> (r: String)
    ensures
        r@ == workspace_parent_spec(temp_root@),
{
    let mut s = temp_root.clone();
    s.append("/mcdevkit");
    s
}

/// Builds the full path of a generated workspace.
pub fn workspace_path(temp_root: &String, dir_name: &String) -> (r: String)
    ensures
        r@ == workspace_path_spec(temp_root@, dir_name@),
{
    let mut s = workspace_parent(temp_root);
    s.append("/");
    s.append(dir_name.as_str());
    s
}

/// Two generated workspaces under one temp root, for the same software and
/// version, land under the same shared parent and never collide as long as
/// their equal-length random suffixes differ.
pub proof fn lemma_workspace_paths_distinct(
    temp_root: Seq<char>,
    software: Software,
    version: Seq<char>,
    s1: Seq<char>,
    s2: Seq<char>,
)
    requires
        s1.len() == s2.len(),
        s1 != s2,
    ensures
        workspace_path_spec(temp_root, workspace_dir_name_spec(software, version, s1))
            != workspace_path_spec(temp_root, workspace_dir_name_spec(software, version, s2)),
        workspace_path_spec(temp_root, workspace_dir_name_spec(software, version, s1)).subrange(
            0,
            workspace_parent_spec(temp_root).len() as int,
        ) == workspace_parent_spec(temp_root),
        workspace_path_spec(temp_root, workspace_dir_name_spec(software, version, s2)).subrange(
            0,
            workspace_parent_spec(temp_root).len() as int,
        ) == workspace_parent_spec(temp_root),
{
    let parent = workspace_parent_spec(temp_root);
    let head = parent + "/"@;
    let stem = software_label(software) + ":"@ + version + "-"@;
    let p1 = workspace_path_spec(temp_root, workspace_dir_name_spec(software, version, s1));
    let p2 = workspace_path_spec(temp_root, workspace_dir_name_spec(software, version, s2));
    assert(p1 =~= head + stem + s1);
    assert(p2 =~= head + stem + s2);
    if s1 =~= s2 {
        assert(false);
    }
    let i = choose|i: int| 0 <= i < s1.len() && s1[i] != s2[i];
    assert((head + stem + s1)[head.len() + stem.len() + i] == s1[i]);
    assert((head + stem + s2)[head.len() + stem.len() + i] == s2[i]);
    assert(p1 != p2);
    assert(p1.subrange(0, parent.len() as int) =~= parent);
    assert(p2.subrange(0, parent.len() as int) =~= parent);
}

/// The shared temp location preferred on unix-like systems.
pub fn shared_temp_root() -> (r: String)
    ensures
        r@ == "/var/tmp"@,
{
    String::from_str("/var/tmp")
}

/// Picks the temp root: the well-known shared location when it is writable,
/// else none, which sends the caller to the platform's temp directory.
pub fn select_temp_root(shared_writable: bool) -> (r: Option<String>)
    ensures
        r is Some <==> shared_writable,
        r matches Some(p) ==> p@ == "/var/tmp"@,
{
    if shared_writable {
        Some(shared_temp_root())
    } else {
        None
    }
}

/// The fixed name of the acceptance marker file.
pub fn eula_file_name() -> (r: String)
    ensures
        r@ == "eula.txt"@,
{
    String::from_str("eula.txt")
}

/// The fixed acceptance token the marker file must contain before the
/// server starts.
pub fn eula_contents() -> (r: String)
    ensures
        r@ == "eula=true"@,
{
    String::from_str("eula=true")
}

} // verus!
