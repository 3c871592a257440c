//! The navigation state: which directory is shown, its entries, the
//! hidden-items toggle and the single selection slot.
//!
//! Reading a directory is the host's job. An operation that needs a read
//! hands out a [`LoadRequest`]; the host reads and gives the outcome back
//! through [`NavigationState::complete_load`]. Every request carries the
//! generation it was issued with, and an outcome is applied only while its
//! request is the latest one issued.

use vstd::prelude::*;

use crate::entry::{DirectoryEntry, EntryView};
use crate::errors::{Error, ErrorKind, ErrorView};
use crate::listing::{
    arrange, in_listing_order, lemma_arrange_unique, lemma_hide_changes, lemma_show_all, visible,
    Listing,
};
use crate::loader::load_outcome;
use crate::messages::{routed, AppInput, CommandView, ItemsBoxInput};
use crate::path::{optional_text, parent, path_parent};
use crate::presentation::{ItemsBoxInit, ItemsBoxInitView, TopPanelInit, TopPanelInitView};

verus! {

/// An event for the presentation layer.
#[derive(Debug, PartialEq, Eq)]
pub enum NavigationEvent {
    /// A new listing of the directory at this path is ready.
    DirectoryLoaded(String),
    /// A directory could not be read; the state is as it was.
    LoadFailed(Error),
    /// The entry at this position of the listing is now the selected one.
    SelectionChanged(usize),
    /// The selected entry was selected again: a directory is to be entered,
    /// a file to be opened.
    ActivateRequested(DirectoryEntry),
    /// A file could not be handed to its default handler.
    OpenFailed(Error),
}

/// Mathematical model of a [`NavigationEvent`].
pub enum EventView {
    DirectoryLoaded(Seq<char>),
    LoadFailed(ErrorView),
    SelectionChanged(int),
    ActivateRequested(EntryView),
    OpenFailed(ErrorView),
}

impl View for NavigationEvent {
    type V = EventView;

    open spec fn view(&self) -> EventView {
        match *self {
            NavigationEvent::DirectoryLoaded(path) => EventView::DirectoryLoaded(path@),
            NavigationEvent::LoadFailed(error) => EventView::LoadFailed(error@),
            NavigationEvent::SelectionChanged(index) => EventView::SelectionChanged(index as int),
            NavigationEvent::ActivateRequested(entry) => EventView::ActivateRequested(entry@),
            NavigationEvent::OpenFailed(error) => EventView::OpenFailed(error@),
        }
    }
}

/// The model of an optional event.
pub open spec fn emitted(event: Option<NavigationEvent>) -> Option<EventView> {
    match event {
        Some(e) => Some(e@),
        None => None,
    }
}

/// What is left for the host to do after a message has been handled.
#[derive(Debug)]
pub enum Effect {
    /// Nothing.
    Idle,
    /// Read the directory of the request and hand the outcome to
    /// [`NavigationState::complete_load`].
    Load(LoadRequest),
    /// Hand the file at this path to its default handler and hand the
    /// outcome to [`NavigationState::request_open`].
    Open(String),
    /// Pass the event on to the presentation layer.
    Emit(NavigationEvent),
}

/// Mathematical model of an [`Effect`].
pub enum EffectView {
    Idle,
    Load(LoadRequestView),
    Open(Seq<char>),
    Emit(EventView),
}

impl View for Effect {
    type V = EffectView;

    open spec fn view(&self) -> EffectView {
        match *self {
            Effect::Idle => EffectView::Idle,
            Effect::Load(request) => EffectView::Load(request@),
            Effect::Open(path) => EffectView::Open(path@),
            Effect::Emit(event) => EffectView::Emit(event@),
        }
    }
}

/// The effect of an operation that emits at most an event.
pub open spec fn announce(event: Option<EventView>) -> EffectView {
    match event {
        Some(e) => EffectView::Emit(e),
        None => EffectView::Idle,
    }
}

/// The generation that follows `generation`. The counter starts over after
/// its last value.
pub open spec fn next_generation(generation: int) -> int {
    if generation == u64::MAX {
        0
    } else {
        generation + 1
    }
}

/// A directory read that the host is asked to perform.
#[derive(Debug)]
pub struct LoadRequest {
    generation: u64,
    path: String,
}

/// Mathematical model of a [`LoadRequest`].
pub struct LoadRequestView {
    /// The generation the request was issued with.
    pub generation: int,
    /// The directory to read.
    pub path: Seq<char>,
}

impl View for LoadRequest {
    type V = LoadRequestView;

    closed spec fn view(&self) -> LoadRequestView {
        LoadRequestView { generation: self.generation as int, path: self.path@ }
    }
}

impl LoadRequest {
    /// The directory to read.
    pub fn path(&self) -> (path: &str)
        ensures
            path@ == self@.path,
    {
        self.path.as_str()
    }

    /// The generation the request was issued with.
    pub fn generation(&self) -> (generation: u64)
        ensures
            generation == self@.generation,
    {
        self.generation
    }
}

/// The model of an optional request.
pub open spec fn issued(request: Option<LoadRequest>) -> Option<LoadRequestView> {
    match request {
        Some(r) => Some(r@),
        None => None,
    }
}

/// Mathematical model of a [`NavigationState`].
pub struct NavigationView {
    /// The directory that "home" leads to; never changes.
    pub home_directory: Seq<char>,
    /// The directory on display.
    pub current_directory: Seq<char>,
    /// Whether hidden entries are listed.
    pub show_hidden: bool,
    /// Every entry of the directory on display, in listing order.
    pub entries: Seq<EntryView>,
    /// The position of the selected entry in the listing, if any.
    pub selected_index: Option<int>,
    /// The generation of the latest request issued.
    pub generation: int,
}

impl NavigationView {
    /// The state at startup: at home, nothing read yet.
    pub open spec fn initial(home_directory: Seq<char>) -> NavigationView {
        NavigationView {
            home_directory,
            current_directory: home_directory,
            show_hidden: false,
            entries: Seq::empty(),
            selected_index: None,
            generation: 0,
        }
    }

    /// The parent of the directory on display, `None` at a root.
    pub open spec fn parent_directory(self) -> Option<Seq<char>> {
        path_parent(self.current_directory)
    }

    /// The listing on display: the entries that pass the hidden-items
    /// filter, in listing order.
    pub open spec fn listing(self) -> Seq<EntryView> {
        visible(self.entries, self.show_hidden)
    }

    /// The invariants of the state.
    pub open spec fn wf(self) -> bool {
        &&& in_listing_order(self.entries)
        &&& self.selected_index matches Some(i) ==> 0 <= i < self.listing().len()
        &&& 0 <= self.generation <= u64::MAX
    }

    /// Issues a read of `path`: the state after it, and the request.
    pub open spec fn navigate_to(self, path: Seq<char>) -> (NavigationView, LoadRequestView) {
        let generation = next_generation(self.generation);
        (NavigationView { generation, ..self }, LoadRequestView { generation, path })
    }

    /// Goes back: a read of the parent directory is issued where there is
    /// one; at a root nothing happens.
    pub open spec fn go_back(self) -> (NavigationView, Option<LoadRequestView>) {
        match self.parent_directory() {
            Some(parent) => (self.navigate_to(parent).0, Some(self.navigate_to(parent).1)),
            None => (self, None),
        }
    }

    /// Goes home: a read of the home directory is issued.
    pub open spec fn go_home(self) -> (NavigationView, LoadRequestView) {
        self.navigate_to(self.home_directory)
    }

    /// Whether `request` is the latest request issued.
    pub open spec fn is_current(self, request: LoadRequestView) -> bool {
        request.generation == self.generation
    }

    /// The state after the outcome of `request` has come in.
    pub open spec fn complete_load(
        self,
        request: LoadRequestView,
        outcome: Result<Seq<EntryView>, ErrorKind>,
    ) -> NavigationView {
        match outcome {
            Ok(raw) if self.is_current(request) => NavigationView {
                current_directory: request.path,
                entries: arrange(raw),
                selected_index: None,
                ..self
            },
            _ => self,
        }
    }

    /// The event emitted when the outcome of `request` comes in.
    pub open spec fn load_event(
        self,
        request: LoadRequestView,
        outcome: Result<Seq<EntryView>, ErrorKind>,
    ) -> Option<EventView> {
        if !self.is_current(request) {
            None
        } else {
            match outcome {
                Ok(_) => Some(EventView::DirectoryLoaded(request.path)),
                Err(kind) => Some(EventView::LoadFailed(ErrorView::IoError(kind))),
            }
        }
    }

    /// The state after the hidden-items toggle has been set to `show`.
    pub open spec fn set_show_hidden(self, show: bool) -> NavigationView {
        if show == self.show_hidden {
            self
        } else {
            NavigationView { show_hidden: show, selected_index: None, ..self }
        }
    }

    /// The event emitted when the hidden-items toggle is set to `show`.
    pub open spec fn show_hidden_event(self, show: bool) -> Option<EventView> {
        if self.set_show_hidden(show).listing() != self.listing() {
            Some(EventView::DirectoryLoaded(self.current_directory))
        } else {
            None
        }
    }

    /// What input to the shell asks of the entry list, if anything: going
    /// back and going home are loads of the parent and of the home
    /// directory, the toggles are passed on, notifications ask nothing.
    pub open spec fn route(self, input: AppInput) -> Option<CommandView> {
        match input {
            AppInput::Back => match self.parent_directory() {
                Some(parent) => Some(CommandView::LoadDirectory(parent)),
                None => None,
            },
            AppInput::Home => Some(CommandView::LoadDirectory(self.home_directory)),
            AppInput::ToggleShowHiddenItems => Some(CommandView::ToggleShowHiddenItems),
            AppInput::ShowHiddenItems(show) => Some(CommandView::ShowHiddenItems(show)),
            AppInput::UpdateCurrentDirectory(_) => None,
            AppInput::Error(_) => None,
        }
    }

    /// The state after a message to the entry list, and what is left for
    /// the host to do.
    pub open spec fn update(self, message: CommandView) -> (NavigationView, EffectView) {
        match message {
            CommandView::LoadDirectory(path) => (
                self.navigate_to(path).0,
                EffectView::Load(self.navigate_to(path).1),
            ),
            CommandView::OpenFile(path) => (self, EffectView::Open(path)),
            CommandView::SelectItem(index) => (
                self.select(index),
                announce(self.select_event(index)),
            ),
            CommandView::ToggleShowHiddenItems => (
                self.set_show_hidden(!self.show_hidden),
                announce(self.show_hidden_event(!self.show_hidden)),
            ),
            CommandView::ShowHiddenItems(show) => (
                self.set_show_hidden(show),
                announce(self.show_hidden_event(show)),
            ),
        }
    }

    /// The state after the entry at `index` has been clicked.
    pub open spec fn select(self, index: int) -> NavigationView {
        if 0 <= index < self.listing().len() {
            NavigationView { selected_index: Some(index), ..self }
        } else {
            self
        }
    }

    /// The event emitted when the entry at `index` is clicked.
    pub open spec fn select_event(self, index: int) -> Option<EventView> {
        if !(0 <= index < self.listing().len()) {
            None
        } else if self.selected_index == Some(index) {
            Some(EventView::ActivateRequested(self.listing()[index]))
        } else {
            Some(EventView::SelectionChanged(index))
        }
    }
}

/// The entries of the directory on display, with and without the hidden
/// ones.
#[derive(Debug)]
struct Snapshot {
    complete: Listing,
    unhidden: Listing,
}

impl Snapshot {
    /// The snapshot of a directory with the entries of `complete`.
    fn of(complete: Listing) -> (snapshot: Snapshot)
        ensures
            snapshot.complete@ == complete@,
            snapshot.unhidden@ == visible(complete@, false),
    {
        let unhidden = complete.visible(false);
        Snapshot { complete, unhidden }
    }
}

/// The navigation state of the browser.
#[derive(Debug)]
pub struct NavigationState {
    home_directory: String,
    current_directory: String,
    show_hidden: bool,
    snapshot: Snapshot,
    selected_index: Option<usize>,
    generation: u64,
}

impl View for NavigationState {
    type V = NavigationView;

    closed spec fn view(&self) -> NavigationView {
        NavigationView {
            home_directory: self.home_directory@,
            current_directory: self.current_directory@,
            show_hidden: self.show_hidden,
            entries: self.snapshot.complete@,
            selected_index: match self.selected_index {
                Some(i) => Some(i as int),
                None => None,
            },
            generation: self.generation as int,
        }
    }
}

impl NavigationState {
    /// The model meets its invariants, and the unhidden entries kept
    /// beside the complete ones are the complete ones filtered.
    #[verifier::type_invariant]
    spec fn valid(&self) -> bool {
        &&& self@.wf()
        &&& self.snapshot.unhidden@ == visible(self.snapshot.complete@, false)
    }

    /// The state at startup: at `home_directory`, nothing read yet.
    pub fn new(home_directory: String) -> (state: NavigationState)
        ensures
            state@ == NavigationView::initial(home_directory@),
            state@.wf(),
    {
        let current_directory = home_directory.clone();
        let snapshot = Snapshot::of(Listing::new());
        NavigationState {
            home_directory,
            current_directory,
            show_hidden: false,
            snapshot,
            selected_index: None,
            generation: 0,
        }
    }

    /// The directory that "home" leads to.
    pub fn home_directory(&self) -> (path: &str)
        ensures
            path@ == self@.home_directory,
    {
        self.home_directory.as_str()
    }

    /// The directory on display.
    pub fn current_directory(&self) -> (path: &str)
        ensures
            path@ == self@.current_directory,
    {
        self.current_directory.as_str()
    }

    /// The parent of the directory on display, `None` at a root.
    pub fn parent_directory(&self) -> (path: Option<String>)
        ensures
            optional_text(path) == self@.parent_directory(),
    {
        parent(self.current_directory.as_str())
    }

    /// Whether hidden entries are listed.
    pub fn show_hidden(&self) -> (show: bool)
        ensures
            show == self@.show_hidden,
    {
        self.show_hidden
    }

    /// The position of the selected entry in the listing, if any.
    pub fn selected_index(&self) -> (index: Option<usize>)
        ensures
            match index {
                Some(i) => self@.selected_index == Some(i as int) && i < self@.listing().len(),
                None => self@.selected_index is None,
            },
    {
        proof {
            use_type_invariant(self);
        }
        self.selected_index
    }

    /// The seed of the entry list for the state as it is.
    pub fn items_box_init(&self) -> (init: ItemsBoxInit)
        ensures
            init@ == (ItemsBoxInitView {
                current_dir: self@.current_directory,
                show_hidden_items: self@.show_hidden,
            }),
    {
        ItemsBoxInit::new(self.current_directory.clone(), self.show_hidden)
    }

    /// The seed of the toolbar for the state as it is.
    pub fn top_panel_init(&self) -> (init: TopPanelInit)
        ensures
            init@ == (TopPanelInitView {
                has_parent_dir: self@.parent_directory() is Some,
                show_hidden_items: self@.show_hidden,
            }),
    {
        let has_parent_dir = parent(self.current_directory.as_str()).is_some();
        TopPanelInit::new(has_parent_dir, self.show_hidden)
    }

    /// The listing on display.
    pub fn listing(&self) -> (listing: &Listing)
        ensures
            listing@ == self@.listing(),
            self@.wf(),
    {
        proof {
            use_type_invariant(self);
            lemma_show_all(self@.entries);
        }
        if self.show_hidden {
            &self.snapshot.complete
        } else {
            &self.snapshot.unhidden
        }
    }

    /// Issues a read of the directory at `path`. The state on display
    /// stays as it is until the outcome comes in.
    pub fn navigate_to(&mut self, path: String) -> (request: LoadRequest)
        ensures
            (final(self)@, request@) == old(self)@.navigate_to(path@),
            final(self)@.wf(),
    {
        proof {
            use_type_invariant(&*self);
        }
        let generation: u64 = if self.generation == u64::MAX {
            0
        } else {
            self.generation + 1
        };
        self.generation = generation;
        LoadRequest { generation, path }
    }

    /// Issues a read of the parent directory; does nothing at a root.
    pub fn go_back(&mut self) -> (request: Option<LoadRequest>)
        ensures
            (final(self)@, issued(request)) == old(self)@.go_back(),
            final(self)@.wf(),
    {
        proof {
            use_type_invariant(&*self);
        }
        match parent(self.current_directory.as_str()) {
            Some(path) => Some(self.navigate_to(path)),
            None => None,
        }
    }

    /// Issues a read of the home directory.
    pub fn go_home(&mut self) -> (request: LoadRequest)
        ensures
            (final(self)@, request@) == old(self)@.go_home(),
            final(self)@.wf(),
    {
        let home = self.home_directory.clone();
        self.navigate_to(home)
    }

    /// Takes in the outcome of the read that `request` asked for.
    ///
    /// The outcome of a request that is no longer the latest one issued is
    /// dropped: nothing changes and nothing is emitted. A failed read leaves
    /// the state as it was and emits `LoadFailed`. A successful read puts
    /// the directory of the request on display, with its entries in listing
    /// order and nothing selected, and emits `DirectoryLoaded`.
    pub fn complete_load(
        &mut self,
        request: LoadRequest,
        outcome: Result<Listing, ErrorKind>,
    ) -> (event: Option<NavigationEvent>)
        ensures
            final(self)@ == old(self)@.complete_load(request@, load_outcome(outcome)),
            emitted(event) == old(self)@.load_event(request@, load_outcome(outcome)),
            final(self)@.wf(),
    {
        proof {
            use_type_invariant(&*self);
        }
        if request.generation != self.generation {
            return None;
        }
        match outcome {
            Err(kind) => Some(NavigationEvent::LoadFailed(Error::IoError(kind))),
            Ok(listing) => {
                proof {
                    use_type_invariant(&listing);
                    lemma_arrange_unique(listing@, listing@);
                }
                let snapshot = Snapshot::of(listing);
                let loaded = request.path.clone();
                self.selected_index = None;
                self.snapshot = snapshot;
                self.current_directory = request.path;
                Some(NavigationEvent::DirectoryLoaded(loaded))
            },
        }
    }

    /// Sets the hidden-items toggle. A call that changes the toggle clears
    /// the selection; `DirectoryLoaded` is emitted iff the listing changed.
    pub fn set_show_hidden(&mut self, show: bool) -> (event: Option<NavigationEvent>)
        ensures
            final(self)@ == old(self)@.set_show_hidden(show),
            emitted(event) == old(self)@.show_hidden_event(show),
            final(self)@.wf(),
    {
        proof {
            use_type_invariant(&*self);
            lemma_show_all(self@.entries);
            lemma_hide_changes(self@.entries);
        }
        if show == self.show_hidden {
            return None;
        }
        let changed = self.snapshot.complete.len() != self.snapshot.unhidden.len();
        self.selected_index = None;
        self.show_hidden = show;
        if changed {
            Some(NavigationEvent::DirectoryLoaded(self.current_directory.clone()))
        } else {
            None
        }
    }

    /// Flips the hidden-items toggle.
    pub fn toggle_show_hidden(&mut self) -> (event: Option<NavigationEvent>)
        ensures
            final(self)@ == old(self)@.set_show_hidden(!old(self)@.show_hidden),
            emitted(event) == old(self)@.show_hidden_event(!old(self)@.show_hidden),
            final(self)@.wf(),
    {
        let show = !self.show_hidden;
        self.set_show_hidden(show)
    }

    /// Handles a click on the entry at `index` of the listing.
    ///
    /// Out of bounds: nothing happens. On the selected entry: the entry is
    /// activated and stays selected. On any other entry: that entry becomes
    /// the selected one.
    pub fn select(&mut self, index: usize) -> (event: Option<NavigationEvent>)
        ensures
            final(self)@ == old(self)@.select(index as int),
            emitted(event) == old(self)@.select_event(index as int),
            final(self)@.wf(),
    {
        proof {
            use_type_invariant(&*self);
        }
        let entry = match self.listing().get(index) {
            Some(entry) => entry.clone(),
            None => {
                return None;
            },
        };
        match self.selected_index {
            Some(selected) if selected == index => Some(NavigationEvent::ActivateRequested(entry)),
            _ => {
                self.selected_index = Some(index);
                Some(NavigationEvent::SelectionChanged(index))
            },
        }
    }

    /// Decides what input to the shell asks of the entry list.
    pub fn route(&self, input: AppInput) -> (message: Option<ItemsBoxInput>)
        ensures
            routed(message) == self@.route(input),
    {
        match input {
            AppInput::Back => match parent(self.current_directory.as_str()) {
                Some(path) => Some(ItemsBoxInput::LoadDirectory(path)),
                None => None,
            },
            AppInput::Home => Some(ItemsBoxInput::LoadDirectory(self.home_directory.clone())),
            AppInput::ToggleShowHiddenItems => Some(ItemsBoxInput::ToggleShowHiddenItems),
            AppInput::ShowHiddenItems(show) => Some(ItemsBoxInput::ShowHiddenItems(show)),
            AppInput::UpdateCurrentDirectory(_) => None,
            AppInput::Error(_) => None,
        }
    }

    /// Handles a message to the entry list: changes the state as the message
    /// asks and says what is left for the host to do.
    pub fn update(&mut self, message: ItemsBoxInput) -> (effect: Effect)
        ensures
            (final(self)@, effect@) == old(self)@.update(message@),
            final(self)@.wf(),
    {
        proof {
            use_type_invariant(&*self);
        }
        let event = match message {
            ItemsBoxInput::LoadDirectory(path) => {
                return Effect::Load(self.navigate_to(path));
            },
            ItemsBoxInput::OpenFile(path) => {
                return Effect::Open(path);
            },
            ItemsBoxInput::SelectItem(index) => self.select(index),
            ItemsBoxInput::ToggleShowHiddenItems => self.toggle_show_hidden(),
            ItemsBoxInput::ShowHiddenItems(show) => self.set_show_hidden(show),
        };
        match event {
            Some(event) => Effect::Emit(event),
            None => Effect::Idle,
        }
    }

    /// Reports what became of handing the file at `path` to its default
    /// handler: nothing on success, `OpenFailed` on failure.
    pub fn request_open(path: String, outcome: Result<(), ErrorKind>) -> (event: Option<
        NavigationEvent,
    >)
        ensures
            emitted(event) == match outcome {
                Ok(_) => None,
                Err(kind) => Some(EventView::OpenFailed(ErrorView::OpenFileError(path@, kind))),
            },
    {
        match outcome {
            Ok(_) => None,
            Err(kind) => Some(NavigationEvent::OpenFailed(Error::OpenFileError(path, kind))),
        }
    }
}

} // verus!
