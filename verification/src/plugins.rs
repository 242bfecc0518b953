//! Plugin handling: extracting a file's base name and planning which plugin
//! inputs are copied into the `plugins` subdirectory and which are skipped
//! with a warning.

use vstd::prelude::*;
use vstd::string::StrSliceExecFns;
use vstd::string::StringExecFns;

verus! {

/// The characters after the last `/` of a path; the whole path when it
/// holds no `/`.
pub open spec fn tail_after_last_slash(s: Seq<char>) -> Seq<char>
    decreases s.len(),
{
    if s.len() == 0 {
        Seq::empty()
    } else if s[s.len() - 1] == '/' {
        Seq::empty()
    } else {
        tail_after_last_slash(s.drop_last()).push(s[s.len() - 1])
    }
}

/// The base name of a path: its last component, or nothing when the path
/// ends in a separator or the component only points back up the tree.
pub open spec fn base_name_spec(s: Seq<char>) -> Option<Seq<char>> {
    let t = tail_after_last_slash(s);
    if t.len() == 0 || t == "."@ || t == ".."@ {
        None
    } else {
        Some(t)
    }
}

proof fn lemma_tail_is_subrange(s: Seq<char>, i: int)
    requires
        0 <= i <= s.len(),
        forall|j: int| i <= j < s.len() ==> s[j] != '/',
        i == 0 || s[i - 1] == '/',
    ensures
        tail_after_last_slash(s) == s.subrange(i, s.len() as int),
    decreases s.len() - i,
{
    if s.len() == i {
        assert(s.subrange(i, s.len() as int) =~= Seq::<char>::empty());
    } else {
        lemma_tail_is_subrange(s.drop_last(), i);
        assert(s.drop_last().subrange(i, s.len() - 1) =~= s.subrange(i, s.len() - 1));
        assert(s.subrange(i, s.len() - 1).push(s[s.len() - 1]) =~= s.subrange(
            i,
            s.len() as int,
        ));
    }
}

/// Extracts the base name of a path, as the last `/`-separated component;
/// nothing comes back for an empty component or one that only points back
/// up the tree.
pub fn file_base_name(path: &str) -> (r: Option<String>)
    ensures
        r is Some <==> base_name_spec(path@) is Some,
        r matches Some(b) ==> base_name_spec(path@) == Some(b@),
{
    let n = path.unicode_len();
    let mut i = n;
    while i > 0 && path.get_char(i - 1) != '/'
        invariant
            i <= n,
            n == path@.len(),
            forall|j: int| i <= j < n ==> path@[j] != '/',
        decreases i,
    {
        i -= 1;
    }
    proof {
        lemma_tail_is_subrange(path@, i as int);
        reveal_strlit(".");
        reveal_strlit("..");
    }
    if i == n {
        return None;
    }
    let t = path.substring_char(i, n);
    let len = n - i;
    if len == 1 && t.get_char(0) == '.' {
        proof {
            assert(tail_after_last_slash(path@) =~= "."@);
        }
        return None;
    }
    if len == 2 && t.get_char(0) == '.' && t.get_char(1) == '.' {
        proof {
            assert(tail_after_last_slash(path@) =~= ".."@);
        }
        return None;
    }
    proof {
        if tail_after_last_slash(path@) == "."@ {
            assert(t@[0] == '.');
            assert(false);
        }
        if tail_after_last_slash(path@) == ".."@ {
            assert(t@[0] == '.' && t@[1] == '.');
            assert(false);
        }
    }
    Some(t.to_owned())
}

/// The destination of one copied plugin: the plugins folder, then the
/// file's base name.
pub fn plugin_destination(folder: &String, base: &String) -> (r: String)
    ensures
        r@ == folder@ + "/"@ + base@,
{
    let mut s = folder.clone();
    s.append("/");
    s.append(base.as_str());
    s
}

/// What kind of entry stands at a path: a regular file, a directory, or
/// nothing.
#[derive(Clone, Copy, Debug, PartialEq, Eq, Structural)]
pub enum PathKind {
    File,
    Directory,
    Missing,
}

/// One plugin input as the filesystem reports it: its path and what kind
/// of entry stands there.
pub struct PluginInput {
    pub path: String,
    pub kind: PathKind,
}

impl View for PluginInput {
    type V = (Seq<char>, PathKind);

    open spec fn view(&self) -> (Seq<char>, PathKind) {
        (self.path@, self.kind)
    }
}

impl DeepView for PluginInput {
    type V = (Seq<char>, PathKind);

    open spec fn deep_view(&self) -> (Seq<char>, PathKind) {
        self@
    }
}

/// The paths of the inputs that are regular files, in input order.
pub open spec fn copy_list(inputs: Seq<(Seq<char>, PathKind)>) -> Seq<Seq<char>>
    decreases inputs.len(),
{
    if inputs.len() == 0 {
        Seq::empty()
    } else {
        copy_list(inputs.drop_last()) + (if inputs.last().1 == PathKind::File {
            seq![inputs.last().0]
        } else {
            Seq::empty()
        })
    }
}

/// The paths of the inputs that are not regular files, in input order.
pub open spec fn skip_list(inputs: Seq<(Seq<char>, PathKind)>) -> Seq<Seq<char>>
    decreases inputs.len(),
{
    if inputs.len() == 0 {
        Seq::empty()
    } else {
        skip_list(inputs.drop_last()) + (if inputs.last().1 == PathKind::File {
            Seq::empty()
        } else {
            seq![inputs.last().0]
        })
    }
}

/// The plan for one round of plugin copying: which inputs are copied and
/// which are skipped with a warning.
pub struct CopyPlan {
    pub copies: Vec<String>,
    pub skipped: Vec<String>,
}

/// Plans the plugin copies. The plan exists only when the destination
/// folder is an existing directory; in it, exactly the inputs that are
/// regular files are copied, in order, and every other input is skipped
/// with a warning, never fatally.
pub fn plan_plugin_copies(inputs: &Vec<PluginInput>, folder_kind: PathKind) -> (r: Option<
    CopyPlan,
>)
    ensures
        r is Some <==> folder_kind == PathKind::Directory,
        r matches Some(plan) ==> plan.copies.deep_view() == copy_list(inputs.deep_view())
            && plan.skipped.deep_view() == skip_list(inputs.deep_view()),
{
    if !matches!(folder_kind, PathKind::Directory) {
        return None;
    }
    let ghost dv = inputs.deep_view();
    let mut copies: Vec<String> = Vec::new();
    let mut skipped: Vec<String> = Vec::new();
    let n = inputs.len();
    proof {
        assert(dv.subrange(0, 0) =~= Seq::<(Seq<char>, PathKind)>::empty());
        assert(copies.deep_view() =~= copy_list(dv.subrange(0, 0)));
        assert(skipped.deep_view() =~= skip_list(dv.subrange(0, 0)));
    }
    let mut i: usize = 0;
    while i < n
        invariant
            n == inputs.len(),
            i <= n,
            dv == inputs.deep_view(),
            copies.deep_view() == copy_list(dv.subrange(0, i as int)),
            skipped.deep_view() == skip_list(dv.subrange(0, i as int)),
        decreases n - i,
    {
        proof {
            assert(dv.subrange(0, i + 1).drop_last() =~= dv.subrange(0, i as int));
            assert(dv.subrange(0, i + 1).last() == dv[i as int]);
            assert(dv[i as int] == inputs@[i as int].deep_view());
        }
        if matches!(inputs[i].kind, PathKind::File) {
            copies.push(inputs[i].path.clone());
            proof {
                assert(copies.deep_view() =~= copy_list(dv.subrange(0, i + 1)));
                assert(skipped.deep_view() =~= skip_list(dv.subrange(0, i + 1)));
            }
        } else {
            skipped.push(inputs[i].path.clone());
            proof {
                assert(copies.deep_view() =~= copy_list(dv.subrange(0, i + 1)));
                assert(skipped.deep_view() =~= skip_list(dv.subrange(0, i + 1)));
            }
        }
        i += 1;
    }
    proof {
        assert(dv.subrange(0, n as int) =~= dv);
    }
    Some(CopyPlan { copies, skipped })
}

} // verus!
