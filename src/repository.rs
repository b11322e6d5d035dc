use vstd::prelude::*;
use vstd::string::*;
use crate::text::has_substring;

verus! {

/// A repository as shown to the user: where it is, its display name, and
/// whether it is bare.
#[derive(Debug)]
pub struct RepositoryInfo {
    pub path: String,
    pub name: String,
    pub is_bare: bool,
}

/// A path component that every platform reads alike: not empty, not `.`
/// or `..`, and without `/`, `\` or `:`.
pub open spec fn plain_component(c: Seq<char>) -> bool {
    &&& c.len() > 0
    &&& c != seq!['.']
    &&& c != seq!['.', '.']
    &&& forall|i: int| 0 <= i < c.len() ==> c[i] != '/' && c[i] != '\\' && c[i] != ':'
}

/// `path` ends in the plain component `c`, and every platform reads `c` as
/// its final component: either the path is `c` alone, or it is `q/c` where
/// `q` holds no `\` or `:` and the path does not start with `//` (which
/// some platforms read as a network share).
pub open spec fn ends_in_component(path: Seq<char>, c: Seq<char>) -> bool {
    &&& plain_component(c)
    &&& (path == c || {
        let k = path.len() - c.len() - 1;
        &&& path.len() > c.len()
        &&& path[k] == '/'
        &&& path.subrange(k + 1, path.len() as int) == c
        &&& forall|i: int| 0 <= i < k ==> path[i] != '\\' && path[i] != ':'
        &&& !(path[0] == '/' && path[1] == '/')
    })
}

/// Relies on std::path::Path::file_name: the final component of the path,
/// if there is one, which is a part of the path's own text. Where the path
/// ends in a plain component that every platform reads as its last one,
/// that component is the result; beyond that, what counts as a component
/// depends on the platform's path syntax, so nothing more is stated. The
/// component of a path given as UTF-8 text is UTF-8 text too.
#[verifier::external_body]
fn file_name(path: &str) -> (r: Option<String>)
    ensures
        r matches Some(n) ==> has_substring(path@, n@),
        r matches Some(n) ==> forall|c: Seq<char>| #[trigger]
            ends_in_component(path@, c) ==> n@ == c,
        r is Some || forall|c: Seq<char>| !#[trigger] ends_in_component(path@, c),
{
    std::path::Path::new(path).file_name().and_then(|s| s.to_str()).map(String::from)
}

/// The name shown for a repository whose directory has the given final
/// component.
pub open spec fn name_for(file_name: Option<Seq<char>>) -> Seq<char> {
    match file_name {
        Some(n) => n,
        None => "Unknown"@,
    }
}

/// The name shown for a repository: the final component of its path, or
/// `Unknown` where the path has none.
pub fn display_name(file_name: Option<String>) -> (r: String)
    ensures
        r@ == name_for(
            match file_name {
                Some(n) => Some(n@),
                None => None,
            },
        ),
{
    match file_name {
        Some(n) => n,
        None => String::from_str("Unknown"),
    }
}

/// The name shown for the repository at `path`: the final component of the
/// path as the platform reads it, or `Unknown`.
pub fn repository_name(path: &str) -> (r: String)
    ensures
        forall|c: Seq<char>| #[trigger] ends_in_component(path@, c) ==> r@ == c,
        r@ == "Unknown"@ || has_substring(path@, r@),
{
    display_name(file_name(path))
}

/// The record of a repository at `path`, named after the final component
/// of its path.
pub fn repository_info(path: String, is_bare: bool) -> (r: RepositoryInfo)
    ensures
        r.path == path,
        forall|c: Seq<char>| #[trigger] ends_in_component(path@, c) ==> r.name@ == c,
        r.name@ == "Unknown"@ || has_substring(path@, r.name@),
        r.is_bare == is_bare,
{
    let name = repository_name(path.as_str());
    RepositoryInfo { path, name, is_bare }
}

} // verus!
