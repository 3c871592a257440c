//! One child of a directory, and the order in which children are listed.

use vstd::prelude::*;
use vstd::relations::total_ordering;
use vstd::utf8::encode_utf8;

use crate::path::{
    file_name, has_dot_name, has_hidden_attribute, is_dot_name, is_hidden_attribute,
    path_file_name,
};
use crate::text_order::{
    compare_text, lemma_encoding_injective, lemma_lex_asymmetric, lemma_lex_connected,
    lemma_lex_irreflexive, lemma_lex_transitive, text_lt, Precedence,
};

verus! {

/// One file or subdirectory found directly inside a directory. Immutable
/// once constructed.
#[derive(Debug, PartialEq, Eq)]
pub struct DirectoryEntry {
    name: String,
    full_path: String,
    is_directory: bool,
    is_hidden: bool,
}

/// Mathematical model of a [`DirectoryEntry`].
pub struct EntryView {
    /// The last path component.
    pub name: Seq<char>,
    /// The path of the entry itself.
    pub full_path: Seq<char>,
    /// Whether the entry is a subdirectory.
    pub is_directory: bool,
    /// Whether the platform hides the entry by default.
    pub is_hidden: bool,
}

impl View for DirectoryEntry {
    type V = EntryView;

    closed spec fn view(&self) -> EntryView {
        EntryView {
            name: self.name@,
            full_path: self.full_path@,
            is_directory: self.is_directory,
            is_hidden: self.is_hidden,
        }
    }
}

/// The listing order: directories first, then by name, case-sensitively.
/// Entries that agree on kind and name are ordered by path and, last,
/// unhidden before hidden, so that the order is total.
pub open spec fn entry_le(a: EntryView, b: EntryView) -> bool {
    if a.is_directory != b.is_directory {
        a.is_directory
    } else if a.name != b.name {
        text_lt(a.name, b.name)
    } else if a.full_path != b.full_path {
        text_lt(a.full_path, b.full_path)
    } else {
        !a.is_hidden || b.is_hidden
    }
}

/// [`entry_le`] as a relation value.
pub open spec fn entry_order() -> spec_fn(EntryView, EntryView) -> bool {
    |a: EntryView, b: EntryView| entry_le(a, b)
}

/// Distinct texts are strictly ordered one way or the other, never both.
proof fn lemma_text_trichotomy(a: Seq<char>, b: Seq<char>)
    ensures
        a == b ==> !text_lt(a, b) && !text_lt(b, a),
        a != b ==> (text_lt(a, b) <==> !text_lt(b, a)),
{
    if a == b {
        lemma_lex_irreflexive(encode_utf8(a));
    } else {
        if text_lt(a, b) {
            lemma_lex_asymmetric(encode_utf8(a), encode_utf8(b));
        } else if !text_lt(b, a) {
            lemma_lex_connected(encode_utf8(a), encode_utf8(b));
            lemma_encoding_injective(a, b);
        }
    }
}

/// The text order is transitive.
proof fn lemma_text_transitive(a: Seq<char>, b: Seq<char>, c: Seq<char>)
    requires
        text_lt(a, b),
        text_lt(b, c),
    ensures
        text_lt(a, c),
        a != c,
{
    lemma_lex_transitive(encode_utf8(a), encode_utf8(b), encode_utf8(c));
    lemma_lex_irreflexive(encode_utf8(a));
}

/// Any two entries are ordered one way or the other.
pub proof fn lemma_entry_le_connected(a: EntryView, b: EntryView)
    ensures
        entry_le(a, b) || entry_le(b, a),
{
    lemma_text_trichotomy(a.name, b.name);
    lemma_text_trichotomy(a.full_path, b.full_path);
}

/// Entries ordered both ways are the same entry.
pub proof fn lemma_entry_le_antisymmetric(a: EntryView, b: EntryView)
    requires
        entry_le(a, b),
        entry_le(b, a),
    ensures
        a == b,
{
    lemma_text_trichotomy(a.name, b.name);
    lemma_text_trichotomy(a.full_path, b.full_path);
}

/// The listing order is transitive.
pub proof fn lemma_entry_le_transitive(a: EntryView, b: EntryView, c: EntryView)
    requires
        entry_le(a, b),
        entry_le(b, c),
    ensures
        entry_le(a, c),
{
    if a.is_directory == b.is_directory && b.is_directory == c.is_directory {
        if a.name != b.name && b.name != c.name {
            lemma_text_transitive(a.name, b.name, c.name);
        } else if a.name == b.name && b.name == c.name {
            if a.full_path != b.full_path && b.full_path != c.full_path {
                lemma_text_transitive(a.full_path, b.full_path, c.full_path);
            }
        }
    }
}

/// The listing order is a total order on entries.
pub proof fn lemma_entry_order_total()
    ensures
        total_ordering(entry_order()),
{
    assert forall|a: EntryView, b: EntryView|
        #[trigger] entry_order()(a, b) && #[trigger] entry_order()(b, a) implies a == b by {
        lemma_entry_le_antisymmetric(a, b);
    }
    assert forall|a: EntryView, b: EntryView, c: EntryView|
        #[trigger] entry_order()(a, b) && #[trigger] entry_order()(b, c) implies entry_order()(
        a,
        c,
    ) by {
        lemma_entry_le_transitive(a, b, c);
    }
    assert forall|a: EntryView, b: EntryView|
        #[trigger] entry_order()(a, b) || #[trigger] entry_order()(b, a) by {
        lemma_entry_le_connected(a, b);
    }
}

impl Clone for DirectoryEntry {
    /// A copy with the same name, path and flags.
    fn clone(&self) -> (copy: Self)
        ensures
            copy@ == self@,
    {
        DirectoryEntry {
            name: self.name.clone(),
            full_path: self.full_path.clone(),
            is_directory: self.is_directory,
            is_hidden: self.is_hidden,
        }
    }
}

impl DirectoryEntry {
    /// An entry with every field given by the caller.
    pub fn new(name: String, full_path: String, is_directory: bool, is_hidden: bool) -> (entry:
        Self)
        ensures
            entry@ == (EntryView { name: name@, full_path: full_path@, is_directory, is_hidden }),
    {
        DirectoryEntry { name, full_path, is_directory, is_hidden }
    }

    /// An entry that is hidden exactly when its name is a dot name.
    pub fn with_dot_rule(name: String, full_path: String, is_directory: bool) -> (entry: Self)
        ensures
            entry@ == (EntryView {
                name: name@,
                full_path: full_path@,
                is_directory,
                is_hidden: is_dot_name(name@),
            }),
    {
        let is_hidden = has_dot_name(name.as_str());
        DirectoryEntry { name, full_path, is_directory, is_hidden }
    }

    /// An entry that is hidden exactly when its attributes say so.
    pub fn with_attribute_rule(
        name: String,
        full_path: String,
        is_directory: bool,
        attributes: u32,
    ) -> (entry: Self)
        ensures
            entry@ == (EntryView {
                name: name@,
                full_path: full_path@,
                is_directory,
                is_hidden: has_hidden_attribute(attributes),
            }),
    {
        let is_hidden = is_hidden_attribute(attributes);
        DirectoryEntry { name, full_path, is_directory, is_hidden }
    }

    /// The entry for the child at `full_path`, named by the final component
    /// of the path and hidden by the dot rule; `None` where the path has no
    /// final component.
    pub fn from_path(full_path: String, is_directory: bool) -> (entry: Option<Self>)
        ensures
            entry is Some <==> path_file_name(full_path@) is Some,
            entry matches Some(e) ==> e@ == (EntryView {
                name: path_file_name(full_path@)->0,
                full_path: full_path@,
                is_directory,
                is_hidden: is_dot_name(path_file_name(full_path@)->0),
            }),
    {
        match file_name(full_path.as_str()) {
            Some(name) => Some(Self::with_dot_rule(name, full_path, is_directory)),
            None => None,
        }
    }

    /// The last path component.
    pub fn name(&self) -> (name: &str)
        ensures
            name@ == self@.name,
    {
        self.name.as_str()
    }

    /// The path of the entry itself.
    pub fn full_path(&self) -> (path: &str)
        ensures
            path@ == self@.full_path,
    {
        self.full_path.as_str()
    }

    /// Whether the entry is a subdirectory.
    pub fn is_directory(&self) -> (flag: bool)
        ensures
            flag == self@.is_directory,
    {
        self.is_directory
    }

    /// Whether the entry is hidden by default.
    pub fn is_hidden(&self) -> (flag: bool)
        ensures
            flag == self@.is_hidden,
    {
        self.is_hidden
    }

    /// Whether `self` is listed no later than `other`.
    pub fn precedes(&self, other: &DirectoryEntry) -> (r: bool)
        ensures
            r == entry_le(self@, other@),
    {
        if self.is_directory != other.is_directory {
            return self.is_directory;
        }
        match compare_text(self.name.as_str(), other.name.as_str()) {
            Precedence::Before => true,
            Precedence::After => false,
            Precedence::Same => match compare_text(
                self.full_path.as_str(),
                other.full_path.as_str(),
            ) {
                Precedence::Before => true,
                Precedence::After => false,
                Precedence::Same => !self.is_hidden || other.is_hidden,
            },
        }
    }
}

} // verus!
