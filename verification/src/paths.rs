//! Where a computed path stands relative to the home prefix.

use vstd::prelude::*;
use vstd::string::*;

verus! {

/// What `std::path::Path::parent` gives for a path written as text: the
/// path without its final component, or nothing where there is none.
pub uninterp spec fn path_parent(path: Seq<char>) -> Option<Seq<char>>;

/// Whether two texts are equal as `std::path::Path` values, which compares
/// them component by component.
pub uninterp spec fn path_same(left: Seq<char>, right: Seq<char>) -> bool;

/// `Path::parent` on text: the result is the parent that std computes,
/// handed back as text, or `None` where std finds no parent.
#[verifier::external_body]
fn parent_of(path: &str) -> (parent: Option<String>)
    ensures
        match parent {
            Some(p) => path_parent(path@) == Some(p@),
            None => path_parent(path@) is None,
        },
{
    match std::path::Path::new(path).parent() {
        Some(p) => Some(p.to_string_lossy().into_owned()),
        None => None,
    }
}

/// What `std::path::Path::join` gives for two paths written as text.
pub uninterp spec fn path_joined(base: Seq<char>, tail: Seq<char>) -> Seq<char>;

/// `Path::join` on text: the result is the path that std builds from the
/// base and the tail, handed back as text.
#[verifier::external_body]
pub(crate) fn join_path(base: &str, tail: &str) -> (joined: String)
    ensures
        joined@ == path_joined(base@, tail@),
{
    std::path::Path::new(base).join(tail).to_string_lossy().into_owned()
}

/// `==` on `Path`: whether std holds the two texts to be the same path.
#[verifier::external_body]
fn same_path(left: &str, right: &str) -> (same: bool)
    ensures
        same == path_same(left@, right@),
{
    std::path::Path::new(left) == std::path::Path::new(right)
}

/// Where a path stands relative to a prefix.
#[derive(Clone, Copy, Debug, PartialEq, Eq, Structural)]
pub enum Placement {
    /// The path's parent is the prefix itself.
    Inside,
    /// The path has a parent, and it is not the prefix.
    Outside,
    /// The path has no parent at all.
    Rootless,
}

/// The placement of `path` under `prefix`: inside only where the parent of
/// the path is exactly the prefix.
pub open spec fn placement(prefix: Seq<char>, path: Seq<char>) -> Placement {
    match path_parent(path) {
        None => Placement::Rootless,
        Some(parent) => if path_same(parent, prefix) {
            Placement::Inside
        } else {
            Placement::Outside
        },
    }
}

/// Decides whether `path` is a direct child of `prefix`.
pub fn placement_of(prefix: &str, path: &str) -> (place: Placement)
    ensures
        place == placement(prefix@, path@),
{
    match parent_of(path) {
        None => Placement::Rootless,
        Some(parent) => {
            if same_path(parent.as_str(), prefix) {
                Placement::Inside
            } else {
                Placement::Outside
            }
        },
    }
}

/// The path of an entry directly below the prefix: the prefix followed by
/// the name, with nothing put between them.
pub open spec fn entry_path(prefix: Seq<char>, name: Seq<char>) -> Seq<char> {
    prefix + name
}

/// Builds the path of `name` below `prefix` by plain concatenation.
pub fn join_entry(prefix: &str, name: &str) -> (path: String)
    ensures
        path@ == entry_path(prefix@, name@),
{
    String::from_str(prefix).concat(name)
}

} // verus!
