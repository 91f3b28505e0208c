use vstd::prelude::*;

verus! {

/// The directory that contains `path`, as `std::path::PathBuf::pop` computes it.
pub uninterp spec fn parent_of(path: Seq<char>) -> Seq<char>;

/// `name` appended to `dir` as one more path component, as `std::path::PathBuf::push` computes it.
pub uninterp spec fn joined(dir: Seq<char>, name: Seq<char>) -> Seq<char>;

/// Relies on `std::path::PathBuf::pop`: the result depends on the path text alone.
#[verifier::external_body]
pub(crate) fn parent_path(path: &String) -> (r: String)
    ensures
        r@ == parent_of(path@),
{
    let mut p = std::path::PathBuf::from(path.as_str());
    p.pop();
    p.to_string_lossy().into_owned()
}

/// Relies on `std::path::PathBuf::push`: the result depends on the two texts alone.
#[verifier::external_body]
pub(crate) fn join_path(dir: &String, name: &String) -> (r: String)
    ensures
        r@ == joined(dir@, name@),
{
    let mut p = std::path::PathBuf::from(dir.as_str());
    p.push(name.as_str());
    p.to_string_lossy().into_owned()
}

/// Relies on `String::push`, which appends one character.
pub assume_specification[ String::push ](s: &mut String, ch: char)
    ensures
        final(s)@ == old(s)@.push(ch),
;

/// Relies on `String::pop`, which removes and returns the last character, if any.
pub assume_specification[ String::pop ](s: &mut String) -> (r: Option<char>)
    ensures
        old(s)@.len() == 0 ==> r is None && final(s)@ == old(s)@,
        old(s)@.len() > 0 ==> r == Some(old(s)@.last()) && final(s)@ == old(s)@.drop_last(),
;

} // verus!
