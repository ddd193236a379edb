//! Paths are held as strings; the operations on them are those of
//! `std::path`.
use vstd::prelude::*;

verus! {

/// What `Path::join` returns, as a string, for a base path and a path to
/// append, on Unix: a path that starts with `/` replaces the base; an empty
/// base, or one that ends with `/`, is followed directly by the appended
/// path; otherwise a `/` goes between them.
pub open spec fn path_joined(base: Seq<char>, rel: Seq<char>) -> Seq<char> {
    if rel.len() > 0 && rel[0] == '/' {
        rel
    } else if base.len() == 0 || base.last() == '/' {
        base + rel
    } else {
        base + seq!['/'] + rel
    }
}

/// The number of components `Path::components` yields for a path.
pub uninterp spec fn path_component_count(p: Seq<char>) -> nat;

/// What `Path::file_name` returns, as a string, for a path.
pub uninterp spec fn path_file_name(p: Seq<char>) -> Option<Seq<char>>;

/// What `Path::parent` returns, as a string, for a path.
pub uninterp spec fn path_parent(p: Seq<char>) -> Option<Seq<char>>;

/// What `Path::extension` returns, as a string, for a path.
pub uninterp spec fn path_extension(p: Seq<char>) -> Option<Seq<char>>;

/// What `PathBuf::set_extension` leaves in a path given a new extension.
pub uninterp spec fn path_with_extension(p: Seq<char>, ext: Seq<char>) -> Seq<char>;

/// `Path::join` on Unix (`PathBuf::push`): an absolute path replaces the
/// base, and a separator is added only where the base is not empty and does
/// not end with one. Strings are valid UTF-8, so converting back is exact.
#[verifier::external_body]
pub(crate) fn join(base: &str, rel: &str) -> (r: String)
    ensures
        r@ == path_joined(base@, rel@),
        rel@.len() > 0 && rel@[0] == '/' ==> r@ == rel@,
{
    std::path::Path::new(base).join(rel).to_string_lossy().into_owned()
}

/// `Path::components` counted.
#[verifier::external_body]
pub(crate) fn component_count(p: &str) -> (r: usize)
    ensures
        r == path_component_count(p@),
{
    std::path::Path::new(p).components().count()
}

/// `Path::file_name`, converted to a string.
#[verifier::external_body]
pub(crate) fn file_name(p: &str) -> (r: Option<String>)
    ensures
        match r {
            Some(s) => path_file_name(p@) == Some(s@),
            None => path_file_name(p@) is None,
        },
{
    std::path::Path::new(p).file_name().map(|s| s.to_string_lossy().into_owned())
}

/// `Path::parent`, converted to a string.
#[verifier::external_body]
pub(crate) fn parent(p: &str) -> (r: Option<String>)
    ensures
        match r {
            Some(s) => path_parent(p@) == Some(s@),
            None => path_parent(p@) is None,
        },
{
    std::path::Path::new(p).parent().map(|s| s.to_string_lossy().into_owned())
}

/// `Path::extension`, converted to a string. The extension is taken from
/// the file name, the last component, so it holds no separator `/`.
#[verifier::external_body]
pub(crate) fn extension(p: &str) -> (r: Option<String>)
    ensures
        match r {
            Some(s) => path_extension(p@) == Some(s@),
            None => path_extension(p@) is None,
        },
        r matches Some(s) ==> forall|i: int| 0 <= i < s@.len() ==> #[trigger] s@[i] != '/',
{
    std::path::Path::new(p).extension().map(|s| s.to_string_lossy().into_owned())
}

/// `PathBuf::set_extension`, returning the changed path. It panics on an
/// extension that holds a separator, so none may.
#[verifier::external_body]
pub(crate) fn with_extension(p: &str, ext: &str) -> (r: String)
    requires
        forall|i: int| 0 <= i < ext@.len() ==> #[trigger] ext@[i] != '/',
    ensures
        r@ == path_with_extension(p@, ext@),
{
    std::path::Path::new(p).with_extension(ext).to_string_lossy().into_owned()
}

} // verus!
