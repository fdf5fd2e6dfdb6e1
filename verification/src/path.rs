//! Questions about Unix paths, which are kept as text.

use vstd::prelude::*;
use vstd::string::StrSliceExecFns;

pub mod laws;

verus! {

/// A path that starts at the root.
pub open spec fn starts_at_root(path: Seq<char>) -> bool {
    path.len() > 0 && path[0] == '/'
}

/// Whether a path is absolute: on Unix that is so exactly when it starts at the
/// root.
pub fn is_absolute(path: &str) -> (r: bool)
    ensures
        r == starts_at_root(path@),
{
    path.unicode_len() > 0 && path.get_char(0) == '/'
}

/// A name that can only be that of an entry of a directory: it has no slash in
/// it, and is not the directory itself or the one above.
pub open spec fn is_entry_name(name: Seq<char>) -> bool {
    name.len() > 0 && !name.contains('/') && name != seq!['.'] && name != seq!['.', '.']
}

/// Whether a path ends in a slash and an entry's name.
pub open spec fn names_entry_of(path: Seq<char>, dir: Seq<char>, name: Seq<char>) -> bool {
    is_entry_name(name) && path == dir + seq!['/'] + name
}

/// What `Path::file_name` makes of a Unix path.
pub uninterp spec fn final_component(path: Seq<char>) -> Option<Seq<char>>;

/// `std::path::Path::file_name`, of a Unix path: its final component, where
/// that is the name of a file. That is the path itself where it is one name, and
/// what follows the slash where a name follows one; what comes of paths that
/// end otherwise is named, not described.
#[verifier::external_body]
pub(crate) fn file_name(path: &str) -> (r: Option<String>)
    ensures
        crate::text::opt_text(r) == final_component(path@),
        is_entry_name(path@) ==> crate::text::opt_text(r) == Some(path@),
        forall|dir: Seq<char>, name: Seq<char>| #[trigger]
            names_entry_of(path@, dir, name) ==> crate::text::opt_text(r) == Some(name),
{
    std::path::Path::new(path).file_name().map(|name| name.to_string_lossy().into_owned())
}

/// What `Path::parent` makes of a Unix path.
pub uninterp spec fn parent_of(path: Seq<char>) -> Option<Seq<char>>;

/// `std::path::Path::parent`, of a Unix path: the path without its final
/// component, where there is one. That is empty where the path is one name, and
/// what precedes the slash where a name follows one, as long as that does not
/// end in a slash or a dot itself. Of an entry of the root it is the root, and of
/// `./` and a name it is `.`; what comes of other paths is named, not described.
#[verifier::external_body]
pub(crate) fn parent(path: &str) -> (r: Option<String>)
    ensures
        crate::text::opt_text(r) == parent_of(path@),
        is_entry_name(path@) ==> crate::text::opt_text(r) == Some(Seq::<char>::empty()),
        forall|dir: Seq<char>, name: Seq<char>| #[trigger]
            names_entry_of(path@, dir, name) && dir.len() > 0 && dir.last() != '/' && dir.last()
                != '.' ==> crate::text::opt_text(r) == Some(dir),
        forall|name: Seq<char>| #[trigger]
            names_entry_of(path@, Seq::empty(), name) ==> crate::text::opt_text(r) == Some(
                seq!['/'],
            ),
        forall|name: Seq<char>| #[trigger]
            names_entry_of(path@, seq!['.'], name) ==> crate::text::opt_text(r) == Some(seq!['.']),
{
    std::path::Path::new(path).parent().map(|dir| dir.to_string_lossy().into_owned())
}

} // verus!
