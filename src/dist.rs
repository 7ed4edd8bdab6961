use vstd::prelude::*;
use vstd::string::StringExecFns;

verus! {

/// `rel` joined under `base` with one separator, as a path join of a
/// relative path does.
pub open spec fn joined_path(base: Seq<char>, rel: Seq<char>) -> Seq<char> {
    if base.len() == 0 || base.last() == '/' {
        base + rel
    } else {
        base + seq!['/'] + rel
    }
}

/// Joins a relative path under `base`.
pub fn join_path(base: &str, rel: &str) -> (r: String)
    ensures
        r@ == joined_path(base@, rel@),
{
    let mut last: Option<char> = None;
    for c in it: base.chars()
        invariant
            it.seq() == base@,
            last == (if it.index() == 0 {
                None
            } else {
                Some(base@[it.index() - 1])
            }),
    {
        last = Some(c);
    }
    let mut r = base.to_string();
    proof {
        reveal_strlit("/");
    }
    match last {
        Some(c) => {
            if c != '/' {
                r.append("/");
            }
        },
        None => {},
    }
    r.append(rel);
    r
}

/// The directory that packaged plugin binaries are copied into, under the
/// project's root.
pub fn dist_dir(project_root: &str) -> (r: String)
    ensures
        r@ == joined_path(project_root@, "target/dist"@),
{
    proof {
        reveal_strlit("target/dist");
    }
    join_path(project_root, "target/dist")
}

/// The file name a packaged binary is given: "hello-world", the
/// destination tag, and the host's plugin extension ".clap".
pub fn artifact_name(dest: &str) -> (r: String)
    ensures
        r@ == "hello-world"@ + dest@ + ".clap"@,
{
    let mut r = "hello-world".to_string();
    r.append(dest);
    r.append(".clap");
    r
}

} // verus!
