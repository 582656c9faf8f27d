//! Paths: joining a file or folder name onto a folder, and the questions
//! put to the file system.

use vstd::prelude::*;
use crate::text::has_prefix;

verus! {

/// A path component that joins onto a path without replacing it: not empty,
/// and free of separators and drive colons.
pub open spec fn plain_component(part: Seq<char>) -> bool {
    &&& part.len() > 0
    &&& forall|i: int| 0 <= i < part.len() ==> #[trigger] part[i] != '/' && part[i] != '\\' && part[i] != ':'
}

/// `r` is `base` joined with the plain component `part`. The separator that
/// is put between them is the platform's (`/` or `\`); none is put after an
/// empty base, nor where the base already ends in a separator or a drive
/// colon.
pub open spec fn path_join_ok(base: Seq<char>, part: Seq<char>, r: Seq<char>) -> bool {
    if base.len() == 0 {
        r == part
    } else {
        ||| (r == base + part && (base.last() == '/' || base.last() == '\\' || base.last() == ':'))
        ||| r == base + seq!['/'] + part
        ||| r == base + seq!['\\'] + part
    }
}

/// The path starts with a Windows verbatim prefix (`\\?\`).
pub open spec fn verbatim_path(p: Seq<char>) -> bool {
    has_prefix(p, "\\\\?\\"@)
}

/// `r` ends in a separator (`/` or `\`) followed by `part`.
pub open spec fn ends_in_component(r: Seq<char>, part: Seq<char>) -> bool {
    let k = r.len() - part.len();
    &&& r.len() > part.len()
    &&& r.subrange(k, r.len() as int) == part
    &&& (r[k - 1] == '/' || r[k - 1] == '\\')
}

/// What joining `part` onto `base` is known to give: `path_join_ok`, except
/// for a base with a verbatim prefix. There the result keeps the verbatim
/// prefix and ends in a separator and `part`, unless `part` is `.` or `..`,
/// of which nothing is stated.
pub open spec fn joined(base: Seq<char>, part: Seq<char>, r: Seq<char>) -> bool {
    if verbatim_path(base) {
        (part != "."@ && part != ".."@) ==> verbatim_path(r) && ends_in_component(r, part)
    } else {
        path_join_ok(base, part, r)
    }
}

/// `base` joined with the plain component `part`: `std::path::Path::join`,
/// with the joined path taken back as text. Which separator is used depends
/// on the platform, so the contract allows either. On Windows a base with a
/// verbatim prefix (`\\?\`) makes std rebuild the path from its components
/// (empty ones dropped, `.` and `..` in `part` applied); for such a base the
/// contract says only that the result keeps the prefix and ends in a
/// separator and `part`, and of a `part` that is `.` or `..` it says nothing.
#[verifier::external_body]
pub(crate) fn join_path(base: &str, part: &str) -> (r: String)
    requires
        plain_component(part@),
    ensures
        joined(base@, part@, r@),
{
    std::path::Path::new(base).join(part).to_string_lossy().into_owned()
}

/// Whether something exists at `path`: `std::path::Path::exists`. The
/// answer depends on the file system at the moment of the call, so nothing
/// is stated of it.
#[verifier::external_body]
pub(crate) fn path_exists(path: &str) -> bool {
    std::path::Path::new(path).exists()
}

/// Whether `path` names an existing directory: `std::path::Path::is_dir`
/// on the path made from the text. The answer depends on the file system
/// at the moment of the call, so nothing is stated of it.
#[verifier::external_body]
pub(crate) fn is_existing_dir(path: &str) -> bool {
    std::path::Path::new(path).is_dir()
}

/// `ask` answered `b` when asked about `s`: one answer that a question put
/// to the file system (or any other oracle for paths) gave.
pub open spec fn answered<F: Fn(&String) -> bool>(ask: F, s: String, b: bool) -> bool {
    ask.ensures((&s,), b)
}

/// Whether the path `path` names an existing directory, as the file system
/// answers at the moment of the call.
pub fn names_existing_dir(path: &String) -> bool {
    is_existing_dir(path.as_str())
}

/// Whether something exists at the path `path`, as the file system answers
/// at the moment of the call.
pub fn names_existing_path(path: &String) -> bool {
    path_exists(path.as_str())
}

proof fn lemma_file_names()
    ensures
        plain_component("window.json"@),
        plain_component("desktop.log"@),
{
    reveal_strlit("window.json");
    reveal_strlit("desktop.log");
}

/// The file that the main window's state is saved in, in the
/// application's configuration folder.
pub fn window_state_file(config_dir: &str) -> (r: String)
    ensures
        joined(config_dir@, "window.json"@, r@),
{
    proof {
        lemma_file_names();
    }
    join_path(config_dir, "window.json")
}

/// The shell's own log file, in the application's log folder.
pub fn desktop_log_file(log_dir: &str) -> (r: String)
    ensures
        joined(log_dir@, "desktop.log"@, r@),
{
    proof {
        lemma_file_names();
    }
    join_path(log_dir, "desktop.log")
}

} // verus!
