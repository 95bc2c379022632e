use vstd::prelude::*;
use vstd::string::StringExecFns;

verus! {

/// Name of the default output directory, below the project root.
pub const UPLOAD_DIR: &'static str = "dist";

/// Name of the default watched directory, below the project root.
pub const WATCH_DIR: &'static str = "src";

/// The path separator written between a base path and a relative component.
pub open spec fn separator() -> char {
    '/'
}

/// `base` followed by the relative component `rel`: nothing is inserted when
/// `base` is empty or already ends in a separator, one separator otherwise.
pub open spec fn join_path(base: Seq<char>, rel: Seq<char>) -> Seq<char> {
    if base.len() == 0 {
        rel
    } else if base.last() == separator() {
        base + rel
    } else {
        base.push(separator()) + rel
    }
}

/// Appends the relative component `rel` to `base`.
pub fn join_relative(base: &str, rel: &str) -> (r: String)
    ensures
        r@ == join_path(base@, rel@),
{
    let n = base.unicode_len();
    let mut r = String::from_str(base);
    if n > 0 && base.get_char(n - 1) != '/' {
        r.append("/");
        proof {
            reveal_strlit("/");
        }
    }
    r.append(rel);
    r
}

/// The default output directory of a project whose root is `root`.
pub fn upload_dir(root: &str) -> (r: String)
    ensures
        r@ == join_path(root@, UPLOAD_DIR@),
{
    join_relative(root, UPLOAD_DIR)
}

/// The default watched directory of a project whose root is `root`.
pub fn watch_dir(root: &str) -> (r: String)
    ensures
        r@ == join_path(root@, WATCH_DIR@),
{
    join_relative(root, WATCH_DIR)
}

} // verus!
