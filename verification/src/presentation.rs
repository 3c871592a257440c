//! What the presentation layer is handed to build its widgets: the seed of
//! the entry list, of the toolbar, and of one row of the list.

use vstd::prelude::*;

use crate::entry::{DirectoryEntry, EntryView};
use crate::listing::Listing;

verus! {

/// Seed of the entry list: the directory to show and the hidden-items
/// toggle.
#[derive(Debug)]
pub struct ItemsBoxInit {
    _current_dir: String,
    _show_hidden_items: bool,
}

/// Mathematical model of an [`ItemsBoxInit`].
pub struct ItemsBoxInitView {
    pub current_dir: Seq<char>,
    pub show_hidden_items: bool,
}

impl View for ItemsBoxInit {
    type V = ItemsBoxInitView;

    closed spec fn view(&self) -> ItemsBoxInitView {
        ItemsBoxInitView {
            current_dir: self._current_dir@,
            show_hidden_items: self._show_hidden_items,
        }
    }
}

impl ItemsBoxInit {
    /// The seed that shows `current_dir` with the toggle as given.
    pub fn new(current_dir: String, show_hidden_items: bool) -> (init: Self)
        ensures
            init@ == (ItemsBoxInitView { current_dir: current_dir@, show_hidden_items }),
    {
        Self { _current_dir: current_dir, _show_hidden_items: show_hidden_items }
    }

    /// The directory to show.
    pub fn current_dir(&self) -> (dir: &str)
        ensures
            dir@ == self@.current_dir,
    {
        self._current_dir.as_str()
    }

    /// Whether hidden entries are listed.
    pub fn show_hidden_items(&self) -> (show: bool)
        ensures
            show == self@.show_hidden_items,
    {
        self._show_hidden_items
    }
}

/// Seed of the toolbar: whether "back" leads anywhere, and the
/// hidden-items toggle.
#[derive(Debug)]
pub struct TopPanelInit {
    _has_parent_dir: bool,
    _show_hidden_items: bool,
}

/// Mathematical model of a [`TopPanelInit`].
pub struct TopPanelInitView {
    pub has_parent_dir: bool,
    pub show_hidden_items: bool,
}

impl View for TopPanelInit {
    type V = TopPanelInitView;

    closed spec fn view(&self) -> TopPanelInitView {
        TopPanelInitView {
            has_parent_dir: self._has_parent_dir,
            show_hidden_items: self._show_hidden_items,
        }
    }
}

impl TopPanelInit {
    /// The seed of a toolbar with both flags as given.
    pub fn new(has_parent_dir: bool, show_hidden_items: bool) -> (init: Self)
        ensures
            init@ == (TopPanelInitView { has_parent_dir, show_hidden_items }),
    {
        Self { _has_parent_dir: has_parent_dir, _show_hidden_items: show_hidden_items }
    }

    /// Whether "back" leads anywhere.
    pub fn has_parent_dir(&self) -> (has_parent: bool)
        ensures
            has_parent == self@.has_parent_dir,
    {
        self._has_parent_dir
    }

    /// Whether hidden entries are listed.
    pub fn show_hidden_items(&self) -> (show: bool)
        ensures
            show == self@.show_hidden_items,
    {
        self._show_hidden_items
    }
}

/// Seed of one row of the list: the name to show, the path to act on, and
/// whether the row stands for a file.
#[derive(Debug)]
pub struct ItemInit {
    _name: String,
    _path: String,
    _is_file: bool,
}

/// Mathematical model of an [`ItemInit`].
pub struct ItemInitView {
    pub name: Seq<char>,
    pub path: Seq<char>,
    pub is_file: bool,
}

impl View for ItemInit {
    type V = ItemInitView;

    closed spec fn view(&self) -> ItemInitView {
        ItemInitView { name: self._name@, path: self._path@, is_file: self._is_file }
    }
}

/// The seed of the row that stands for `entry`.
pub open spec fn row_of(entry: EntryView) -> ItemInitView {
    ItemInitView { name: entry.name, path: entry.full_path, is_file: !entry.is_directory }
}

impl ItemInit {
    /// The seed of the row that stands for `entry`.
    pub fn of(entry: &DirectoryEntry) -> (init: Self)
        ensures
            init@ == row_of(entry@),
    {
        Self {
            _name: entry.name().to_owned(),
            _path: entry.full_path().to_owned(),
            _is_file: !entry.is_directory(),
        }
    }

    /// The seeds of the rows of `listing`, one for each entry, in order.
    pub fn rows(listing: &Listing) -> (rows: Vec<ItemInit>)
        ensures
            rows@.len() == listing@.len(),
            forall|i: int| 0 <= i < rows@.len() ==> (#[trigger] rows@[i])@ == row_of(listing@[i]),
    {
        let mut rows: Vec<ItemInit> = Vec::new();
        let mut i: usize = 0;
        while i < listing.len()
            invariant
                i <= listing@.len(),
                rows@.len() == i,
                forall|k: int| 0 <= k < i ==> (#[trigger] rows@[k])@ == row_of(listing@[k]),
            decreases listing@.len() - i,
        {
            match listing.get(i) {
                Some(entry) => rows.push(ItemInit::of(entry)),
                None => {},
            }
            i += 1;
        }
        rows
    }

    /// The name to show.
    pub fn name(&self) -> (name: &str)
        ensures
            name@ == self@.name,
    {
        self._name.as_str()
    }

    /// The path to act on.
    pub fn path(&self) -> (path: &str)
        ensures
            path@ == self@.path,
    {
        self._path.as_str()
    }

    /// Whether the row stands for a file.
    pub fn is_file(&self) -> (flag: bool)
        ensures
            flag == self@.is_file,
    {
        self._is_file
    }

    /// The name of the icon of the row: `"file"` for a file, `"folder"`
    /// for a directory.
    pub fn icon_name(&self) -> (icon: &'static str)
        ensures
            icon@ == if self@.is_file {
                "file"@
            } else {
                "folder"@
            },
    {
        if self._is_file {
            "file"
        } else {
            "folder"
        }
    }
}

} // verus!
