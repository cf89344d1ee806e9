//! The few operations on file-system paths that the player needs, taken from
//! `std::path`; paths are carried as text.
use crate::text::{str_eq, views};
use vstd::prelude::*;

verus! {

/// What `Path::join` gives for `base` and `rest`.
pub uninterp spec fn joined_path(base: Seq<char>, rest: Seq<char>) -> Seq<char>;

/// What `Path::strip_prefix` gives for `path` and `base`.
pub uninterp spec fn stripped_path(path: Seq<char>, base: Seq<char>) -> Option<Seq<char>>;

/// What `Path::file_name` gives for `path`.
pub uninterp spec fn file_name_of(path: Seq<char>) -> Option<Seq<char>>;

/// What `Path::is_absolute` gives for `path`.
pub uninterp spec fn is_absolute_path(path: Seq<char>) -> bool;

/// What `Path::components` gives for `path`, each component as text.
pub uninterp spec fn path_components(path: Seq<char>) -> Seq<Seq<char>>;

/// Whether `a` and `b` name the same path: they have the same components, so
/// `a//b`, `a/./b`, `a/b/` and `a/b` are one path.
pub open spec fn same_path(a: Seq<char>, b: Seq<char>) -> bool {
    path_components(a) == path_components(b)
}

/// `Path::join`: `rest` appended to `base` with a separator, or `rest` alone
/// where it is absolute. The contract names the result and says no more.
#[verifier::external_body]
pub(crate) fn join_path(base: &str, rest: &str) -> (r: String)
    ensures
        r@ == joined_path(base@, rest@),
{
    std::path::Path::new(base).join(rest).to_string_lossy().into_owned()
}

/// `Path::strip_prefix`: `path` without the leading components of `base`, or
/// `None` where `base` is not a prefix of `path`. The contract names the
/// result and states what the documentation of `strip_prefix` promises of it:
/// joined onto `base`, it gives `path` again (as paths compare).
#[verifier::external_body]
pub(crate) fn strip_path_prefix(path: &str, base: &str) -> (r: Option<String>)
    ensures
        match r {
            Some(s) => stripped_path(path@, base@) == Some(s@) && same_path(path@, joined_path(base@, s@)),
            None => stripped_path(path@, base@) is None,
        },
{
    match std::path::Path::new(path).strip_prefix(base) {
        Ok(p) => Some(p.to_string_lossy().into_owned()),
        Err(_) => None,
    }
}

/// `Path::file_name`: the last normal component of `path`, if it has one.
/// The contract names the result.
#[verifier::external_body]
pub(crate) fn path_file_name(path: &str) -> (r: Option<String>)
    ensures
        match r {
            Some(s) => file_name_of(path@) == Some(s@),
            None => file_name_of(path@) is None,
        },
{
    match std::path::Path::new(path).file_name() {
        Some(n) => Some(n.to_string_lossy().into_owned()),
        None => None,
    }
}

/// `Path::is_absolute`. The contract names the result.
#[verifier::external_body]
pub(crate) fn path_is_absolute(path: &str) -> (r: bool)
    ensures
        r == is_absolute_path(path@),
{
    std::path::Path::new(path).is_absolute()
}

/// `Path::components`: the components of `path` (repeated separators and `.`
/// in the middle left out, as `components` documents), each as text. The
/// contract names the result.
#[verifier::external_body]
pub(crate) fn components_of(path: &str) -> (r: Vec<String>)
    ensures
        views(r@) == path_components(path@),
{
    let mut r: Vec<String> = Vec::new();
    for c in std::path::Path::new(path).components() {
        r.push(c.as_os_str().to_string_lossy().into_owned());
    }
    r
}

/// Whether two paths have the same components.
pub fn paths_equal(a: &str, b: &str) -> (r: bool)
    ensures
        r == same_path(a@, b@),
{
    let x = components_of(a);
    let y = components_of(b);
    if x.len() != y.len() {
        assert(views(x@).len() != views(y@).len());
        return false;
    }
    let mut i: usize = 0;
    while i < x.len()
        invariant
            x.len() == y.len(),
            views(x@) == path_components(a@),
            views(y@) == path_components(b@),
            i <= x.len(),
            forall|j: int| 0 <= j < i ==> x@[j]@ == y@[j]@,
        decreases x.len() - i,
    {
        if !str_eq(x[i].as_str(), y[i].as_str()) {
            assert(views(x@)[i as int] != views(y@)[i as int]);
            return false;
        }
        i += 1;
    }
    assert(views(x@) =~= views(y@));
    true
}

} // verus!
