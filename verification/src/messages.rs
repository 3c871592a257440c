//! The messages that the parts of the browser exchange.
//!
//! The toolbar and the rows of the entry list report what the user did. The
//! shell turns toolbar reports into its own input; the entry list turns row
//! reports into its own input and reports loads and failures to the shell.

use vstd::prelude::*;

use crate::entry::DirectoryEntry;
use crate::errors::Error;
use crate::navigation::NavigationEvent;

verus! {

/// What reaches the shell of the browser.
#[derive(Debug, PartialEq, Eq)]
pub enum AppInput {
    /// The directory at this path has been put on display.
    UpdateCurrentDirectory(String),
    /// The user asked for the parent directory.
    Back,
    /// The user asked for the home directory.
    Home,
    /// The user flipped the hidden-items toggle from the keyboard or menu.
    ToggleShowHiddenItems,
    /// The user set the hidden-items toggle.
    ShowHiddenItems(bool),
    /// Something failed.
    Error(Error),
}

/// What the toolbar reports.
#[derive(Debug, PartialEq, Eq)]
pub enum TopPanelOutput {
    HiddenItemsToggled(bool),
    Home,
    Back,
}

/// What the entry list is told.
#[derive(Debug, PartialEq, Eq)]
pub enum ItemsBoxInput {
    LoadDirectory(String),
    ToggleShowHiddenItems,
    ShowHiddenItems(bool),
    OpenFile(String),
    /// The row at this position of the listing was clicked.
    SelectItem(usize),
}

/// What the entry list reports to the shell.
#[derive(Debug, PartialEq, Eq)]
pub enum ItemsBoxOutput {
    DirectoryLoaded(String),
    Error(Error),
}

/// What one row of the entry list reports.
#[derive(Debug, PartialEq, Eq)]
pub enum ItemOutput {
    OpenFile(String),
    OpenDirectory(String),
    /// The row at this position was clicked.
    ItemSelected(usize),
}

/// Mathematical model of an [`ItemsBoxInput`].
pub enum CommandView {
    LoadDirectory(Seq<char>),
    ToggleShowHiddenItems,
    ShowHiddenItems(bool),
    OpenFile(Seq<char>),
    SelectItem(int),
}

impl View for ItemsBoxInput {
    type V = CommandView;

    open spec fn view(&self) -> CommandView {
        match *self {
            ItemsBoxInput::LoadDirectory(path) => CommandView::LoadDirectory(path@),
            ItemsBoxInput::ToggleShowHiddenItems => CommandView::ToggleShowHiddenItems,
            ItemsBoxInput::ShowHiddenItems(show) => CommandView::ShowHiddenItems(show),
            ItemsBoxInput::OpenFile(path) => CommandView::OpenFile(path@),
            ItemsBoxInput::SelectItem(index) => CommandView::SelectItem(index as int),
        }
    }
}

/// The model of an optional message to the entry list.
pub open spec fn routed(message: Option<ItemsBoxInput>) -> Option<CommandView> {
    match message {
        Some(m) => Some(m@),
        None => None,
    }
}

/// What a toolbar report means to the shell.
pub fn convert_top_panel_response(output: TopPanelOutput) -> (input: AppInput)
    ensures
        input == match output {
            TopPanelOutput::HiddenItemsToggled(show) => AppInput::ShowHiddenItems(show),
            TopPanelOutput::Home => AppInput::Home,
            TopPanelOutput::Back => AppInput::Back,
        },
{
    match output {
        TopPanelOutput::HiddenItemsToggled(show) => AppInput::ShowHiddenItems(show),
        TopPanelOutput::Home => AppInput::Home,
        TopPanelOutput::Back => AppInput::Back,
    }
}

/// What a report of the entry list means to the shell.
pub fn convert_items_box_response(output: ItemsBoxOutput) -> (input: AppInput)
    ensures
        input == match output {
            ItemsBoxOutput::DirectoryLoaded(current_dir) => AppInput::UpdateCurrentDirectory(
                current_dir,
            ),
            ItemsBoxOutput::Error(error) => AppInput::Error(error),
        },
{
    match output {
        ItemsBoxOutput::DirectoryLoaded(current_dir) => {
            AppInput::UpdateCurrentDirectory(current_dir)
        },
        ItemsBoxOutput::Error(error) => AppInput::Error(error),
    }
}

/// What a report of a row means to the entry list.
pub fn convert_item_response(output: ItemOutput) -> (input: ItemsBoxInput)
    ensures
        input == match output {
            ItemOutput::OpenFile(path) => ItemsBoxInput::OpenFile(path),
            ItemOutput::OpenDirectory(path) => ItemsBoxInput::LoadDirectory(path),
            ItemOutput::ItemSelected(index) => ItemsBoxInput::SelectItem(index),
        },
{
    match output {
        ItemOutput::OpenFile(path) => ItemsBoxInput::OpenFile(path),
        ItemOutput::OpenDirectory(path) => ItemsBoxInput::LoadDirectory(path),
        ItemOutput::ItemSelected(index) => ItemsBoxInput::SelectItem(index),
    }
}

/// What the row of `entry` reports when the entry is activated: a
/// directory is to be loaded, a file is to be opened.
pub fn activation(entry: &DirectoryEntry) -> (output: ItemOutput)
    ensures
        match output {
            ItemOutput::OpenDirectory(path) => entry@.is_directory && path@ == entry@.full_path,
            ItemOutput::OpenFile(path) => !entry@.is_directory && path@ == entry@.full_path,
            ItemOutput::ItemSelected(_) => false,
        },
{
    if entry.is_directory() {
        ItemOutput::OpenDirectory(entry.full_path().to_owned())
    } else {
        ItemOutput::OpenFile(entry.full_path().to_owned())
    }
}

/// What the entry list reports to the shell for `event`: loads and
/// failures are reported, selection and activation stay within the list.
pub fn report(event: NavigationEvent) -> (output: Option<ItemsBoxOutput>)
    ensures
        output == match event {
            NavigationEvent::DirectoryLoaded(path) => Some(ItemsBoxOutput::DirectoryLoaded(path)),
            NavigationEvent::LoadFailed(error) => Some(ItemsBoxOutput::Error(error)),
            NavigationEvent::OpenFailed(error) => Some(ItemsBoxOutput::Error(error)),
            NavigationEvent::SelectionChanged(_) => None,
            NavigationEvent::ActivateRequested(_) => None,
        },
{
    match event {
        NavigationEvent::DirectoryLoaded(path) => Some(ItemsBoxOutput::DirectoryLoaded(path)),
        NavigationEvent::LoadFailed(error) => Some(ItemsBoxOutput::Error(error)),
        NavigationEvent::OpenFailed(error) => Some(ItemsBoxOutput::Error(error)),
        NavigationEvent::SelectionChanged(_) => None,
        NavigationEvent::ActivateRequested(_) => None,
    }
}

} // verus!
