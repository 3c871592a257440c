//! Lexical operations on path text, and the two rules by which a platform
//! hides an entry.
//!
//! Splitting a path into its parent and its final component is left to the
//! standard library; the engine only relies on both being functions of the
//! path text.

use vstd::prelude::*;

verus! {

/// The parent of `path` as `std::path::Path::parent` computes it, `None`
/// where the path ends in a root or is empty.
pub uninterp spec fn path_parent(path: Seq<char>) -> Option<Seq<char>>;

/// The final component of `path` as `std::path::Path::file_name` computes
/// it, `None` where the path ends in `..` or has no component.
pub uninterp spec fn path_file_name(path: Seq<char>) -> Option<Seq<char>>;

/// The text held by an optional string.
pub open spec fn optional_text(text: Option<String>) -> Option<Seq<char>> {
    match text {
        Some(t) => Some(t@),
        None => None,
    }
}

/// Calls `std::path::Path::parent` on the path text and renders the result
/// as text again.
///
/// Trusted: the result is taken to be a function of the path text alone.
/// Nothing else about it is claimed.
#[verifier::external_body]
pub(crate) fn parent(path: &str) -> (res: Option<String>)
    ensures
        optional_text(res) == path_parent(path@),
{
    std::path::Path::new(path).parent().map(|v| v.display().to_string())
}

/// Calls `std::path::Path::file_name` on the path text and renders the
/// result as text again.
///
/// Trusted: the result is taken to be a function of the path text alone.
/// Nothing else about it is claimed.
#[verifier::external_body]
pub(crate) fn file_name(path: &str) -> (res: Option<String>)
    ensures
        optional_text(res) == path_file_name(path@),
{
    std::path::Path::new(path).file_name().and_then(|n| n.to_str()).map(|n| n.to_owned())
}

/// A name is a dot name when it starts with a full stop; POSIX-style
/// systems hide such entries.
pub open spec fn is_dot_name(name: Seq<char>) -> bool {
    name.len() > 0 && name[0] == '.'
}

/// Tells whether `name` starts with a full stop.
pub fn has_dot_name(name: &str) -> (r: bool)
    ensures
        r == is_dot_name(name@),
{
    if name.is_empty() {
        false
    } else {
        name.get_char(0) == '.'
    }
}

/// The bit of a file's attributes that marks the file as hidden where
/// attributes, not names, decide.
pub const HIDDEN_ATTRIBUTE: u32 = 0x2;

/// The attributes mark their file as hidden.
pub open spec fn has_hidden_attribute(attributes: u32) -> bool {
    attributes & HIDDEN_ATTRIBUTE != 0
}

/// Tells whether `attributes` mark their file as hidden.
pub fn is_hidden_attribute(attributes: u32) -> (r: bool)
    ensures
        r == has_hidden_attribute(attributes),
{
    attributes & HIDDEN_ATTRIBUTE != 0
}

} // verus!
