//! File system paths, held as text. What `std::path` makes of a path is taken from it
//! through the functions here.
use crate::text::{opt_chars, same_text, texts};
use vstd::prelude::*;

verus! {

/// The final component of the path `p`, as `Path::file_name` gives it.
pub uninterp spec fn path_file_name(p: Seq<char>) -> Option<Seq<char>>;

/// The path `p` without its final component, as `Path::parent` gives it.
pub uninterp spec fn path_parent(p: Seq<char>) -> Option<Seq<char>>;

/// The path `q` adjoined to `p`, as `Path::join` gives it.
pub uninterp spec fn path_join(p: Seq<char>, q: Seq<char>) -> Seq<char>;

/// The extension of the final component of `p`, as `Path::extension` gives it.
pub uninterp spec fn path_extension(p: Seq<char>) -> Option<Seq<char>>;

/// Whether the last component of `p` is `..`, as `Path::ends_with("..")` answers.
pub uninterp spec fn path_ends_with_parent(p: Seq<char>) -> bool;

/// The components of `p`, each as its text, as `Path::components` gives them.
pub uninterp spec fn path_components(p: Seq<char>) -> Seq<Seq<char>>;

/// Whether `a` and `b` are the same path: `Path`'s `==` compares paths component by
/// component, so `a/b/` and `a//b` name the path `a/b`.
pub open spec fn same_path_spec(a: Seq<char>, b: Seq<char>) -> bool {
    path_components(a) == path_components(b)
}

/// Calls `Path::file_name`; a path made from text has a name that is text.
#[verifier::external_body]
pub(crate) fn file_name(p: &str) -> (r: Option<String>)
    ensures
        opt_chars(r) == path_file_name(p@),
{
    std::path::Path::new(p).file_name().map(|n| n.to_string_lossy().into_owned())
}

/// Calls `Path::parent`.
#[verifier::external_body]
pub(crate) fn parent(p: &str) -> (r: Option<String>)
    ensures
        opt_chars(r) == path_parent(p@),
{
    std::path::Path::new(p).parent().map(|n| n.to_string_lossy().into_owned())
}

/// Calls `Path::join`.
#[verifier::external_body]
pub(crate) fn join(p: &str, q: &str) -> (r: String)
    ensures
        r@ == path_join(p@, q@),
{
    std::path::Path::new(p).join(q).to_string_lossy().into_owned()
}

/// Calls `Path::extension`.
#[verifier::external_body]
pub(crate) fn extension(p: &str) -> (r: Option<String>)
    ensures
        opt_chars(r) == path_extension(p@),
{
    std::path::Path::new(p).extension().map(|n| n.to_string_lossy().into_owned())
}

/// Calls `Path::ends_with` with the component `..`.
#[verifier::external_body]
pub(crate) fn ends_with_parent(p: &str) -> (r: bool)
    ensures
        r == path_ends_with_parent(p@),
{
    std::path::Path::new(p).ends_with("..")
}

/// Calls `Path::components` and gives each component as its text: `/` for the root, `.`
/// and `..` for the current and parent directory, the name itself otherwise. A name holds
/// no `/` and is neither `.` nor `..`, so two paths have the same components exactly when
/// these texts agree.
#[verifier::external_body]
pub(crate) fn components(p: &str) -> (r: Vec<String>)
    ensures
        texts(r@) == path_components(p@),
{
    std::path::Path::new(p).components().map(|c| c.as_os_str().to_string_lossy().into_owned()).collect()
}

/// Whether `a` and `b` are the same path, compared component by component.
pub fn same_path(a: &str, b: &str) -> (r: bool)
    ensures
        r == same_path_spec(a@, b@),
{
    let x = components(a);
    let y = components(b);
    if x.len() != y.len() {
        assert(texts(x@).len() == x@.len());
        assert(texts(y@).len() == y@.len());
        return false;
    }
    let mut i: usize = 0;
    while i < x.len()
        invariant
            texts(x@) == path_components(a@),
            texts(y@) == path_components(b@),
            x@.len() == y@.len(),
            i <= x@.len(),
            forall|k: int| 0 <= k < i ==> x@[k]@ == y@[k]@,
        decreases x@.len() - i,
    {
        if !same_text(x[i].as_str(), y[i].as_str()) {
            assert(texts(x@)[i as int] != texts(y@)[i as int]);
            return false;
        }
        i = i + 1;
    }
    assert(texts(x@) =~= texts(y@));
    true
}

} // verus!
