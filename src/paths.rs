use vstd::prelude::*;

verus! {

/// The last component of a path, when it has one that is a name.
pub uninterp spec fn path_file_name(p: Seq<char>) -> Option<Seq<char>>;

/// A path without its last component, when it has one.
pub uninterp spec fn path_parent(p: Seq<char>) -> Option<Seq<char>>;

/// `rel` joined onto `base`; an absolute `rel` replaces `base`.
pub uninterp spec fn path_join(base: Seq<char>, rel: Seq<char>) -> Seq<char>;

/// Whether `base` is a leading run of whole components of `p`.
pub uninterp spec fn path_starts_with(p: Seq<char>, base: Seq<char>) -> bool;

/// Relies on `std::path::Path::starts_with`: whether `base` is a prefix of
/// `p`, component by component.
#[verifier::external_body]
pub(crate) fn path_has_prefix(p: &str, base: &str) -> (r: bool)
    ensures
        r == path_starts_with(p@, base@),
{
    std::path::Path::new(p).starts_with(base)
}

/// `p` with the leading components `base` taken away, when `base` is a
/// prefix of `p`.
pub uninterp spec fn path_strip_prefix(p: Seq<char>, base: Seq<char>) -> Option<Seq<char>>;

/// Relies on `std::path::Path::strip_prefix`: the rest of `p` after the
/// components of `base`, or `None` when `base` is not a prefix of `p`.
#[verifier::external_body]
pub(crate) fn strip_path_prefix(p: &str, base: &str) -> (r: Option<String>)
    ensures
        r is None <==> path_strip_prefix(p@, base@) is None,
        r is Some ==> r->Some_0@ == path_strip_prefix(p@, base@)->Some_0,
{
    std::path::Path::new(p).strip_prefix(base).ok().map(|q| q.to_string_lossy().into_owned())
}

/// Relies on `std::path::Path::file_name`: the final component of the
/// path, `None` when the path ends in `..` or is a root or empty.
#[verifier::external_body]
fn file_name_of(p: &str) -> (r: Option<String>)
    ensures
        r is None <==> path_file_name(p@) is None,
        r is Some ==> r->Some_0@ == path_file_name(p@)->Some_0,
{
    std::path::Path::new(p).file_name().map(|n| n.to_string_lossy().into_owned())
}

/// Relies on `std::path::Path::parent`: the path without its final
/// component, `None` when it ends in a root or is empty.
#[verifier::external_body]
pub(crate) fn parent_of(p: &str) -> (r: Option<String>)
    ensures
        r is None <==> path_parent(p@) is None,
        r is Some ==> r->Some_0@ == path_parent(p@)->Some_0,
{
    std::path::Path::new(p).parent().map(|q| q.to_string_lossy().into_owned())
}

/// Relies on `std::path::Path::join`: `rel` pushed onto `base`.
#[verifier::external_body]
pub(crate) fn join_paths(base: &str, rel: &str) -> (r: String)
    ensures
        r@ == path_join(base@, rel@),
{
    std::path::Path::new(base).join(rel).to_string_lossy().into_owned()
}

/// Directory that downloads go to when none is given.
pub const DEFAULT_LOCAL_DIR: &'static str = "./";

/// Local path of a download: the last component of the remote `name`,
/// joined onto `path` (the current directory when there is none).
pub open spec fn local_path_spec(name: Seq<char>, path: Option<Seq<char>>) -> Seq<char> {
    let file_name = match path_file_name(name) {
        Some(f) => f,
        None => Seq::empty(),
    };
    let base = match path {
        Some(p) => p,
        None => DEFAULT_LOCAL_DIR@,
    };
    path_join(base, file_name)
}

/// Where a remote file is saved locally: only the last component of its
/// remote name is kept, under `path` or the current directory.
pub fn get_local_path(name: &str, path: Option<&String>) -> (r: String)
    ensures
        r@ == local_path_spec(
            name@,
            match path {
                Some(p) => Some(p@),
                None => None,
            },
        ),
{
    let file_name = match file_name_of(name) {
        Some(f) => f,
        None => String::new(),
    };
    match path {
        Some(p) => join_paths(p.as_str(), file_name.as_str()),
        None => join_paths(DEFAULT_LOCAL_DIR, file_name.as_str()),
    }
}

/// A file or directory name that starts with a dot is hidden.
pub fn is_hidden_name(name: &str) -> (r: bool)
    ensures
        r == (name@.len() > 0 && name@[0] == '.'),
{
    if name.unicode_len() == 0 {
        false
    } else {
        name.get_char(0) == '.'
    }
}

/// Whether the last character of `s` is `/`.
pub fn ends_with_slash(s: &str) -> (r: bool)
    ensures
        r == (s@.len() > 0 && s@.last() == '/'),
{
    let n = s.unicode_len();
    if n == 0 {
        false
    } else {
        s.get_char(n - 1) == '/'
    }
}

} // verus!
