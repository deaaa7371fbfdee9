use vstd::prelude::*;
use std::path::Path;

verus! {

/// What `Path::strip_prefix` leaves of `path` when `base` is taken off its
/// front, both read as paths of the platform; `None` where `base` is not a
/// prefix of `path`.
pub uninterp spec fn path_stripped(path: Seq<char>, base: Seq<char>) -> Option<Seq<char>>;

/// What `Path::join` makes of `base` and `path`, both read as paths of the
/// platform.
pub uninterp spec fn path_joined(base: Seq<char>, path: Seq<char>) -> Seq<char>;

/// What `Path::parent` gives for `path`, read as a path of the platform;
/// `None` where `path` ends in a root or is empty.
pub uninterp spec fn path_parent(path: Seq<char>) -> Option<Seq<char>>;

/// `Path::strip_prefix`, on paths given as text. The contract only names the
/// result: it is a function of the two texts.
#[verifier::external_body]
pub(crate) fn strip_prefix(path: &str, base: &str) -> (r: Option<String>)
    ensures
        match r {
            Some(rest) => path_stripped(path@, base@) == Some(rest@),
            None => path_stripped(path@, base@) is None,
        },
{
    match Path::new(path).strip_prefix(base) {
        Ok(rest) => Some(rest.to_string_lossy().into_owned()),
        Err(_) => None,
    }
}

/// `Path::join`, on paths given as text. The contract only names the result:
/// it is a function of the two texts.
#[verifier::external_body]
pub(crate) fn join(base: &str, path: &str) -> (r: String)
    ensures
        r@ == path_joined(base@, path@),
{
    Path::new(base).join(path).to_string_lossy().into_owned()
}

/// `Path::parent`, on a path given as text. The contract only names the
/// result: it is a function of the text.
#[verifier::external_body]
pub(crate) fn parent(path: &str) -> (r: Option<String>)
    ensures
        match r {
            Some(dir) => path_parent(path@) == Some(dir@),
            None => path_parent(path@) is None,
        },
{
    match Path::new(path).parent() {
        Some(dir) => Some(dir.to_string_lossy().into_owned()),
        None => None,
    }
}

} // verus!
