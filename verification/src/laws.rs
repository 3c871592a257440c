//! What holds of the navigation state whatever the directory contents and
//! whatever the order of commands.

use vstd::prelude::*;

use crate::entry::{entry_order, DirectoryEntry, EntryView};
use crate::errors::{ErrorKind, ErrorView};
use crate::listing::{
    arrange, in_listing_order, lemma_arrange, lemma_arrange_unique,
    lemma_filter_commutes_with_arrange, lemma_filter_keeps_order, lemma_hide_changes,
    lemma_show_all, shown, visible,
};
use crate::loader::{first_failure, loaded};
use crate::messages::AppInput;
use crate::navigation::{EffectView, EventView, LoadRequestView, NavigationView};
use crate::path::path_parent;
use crate::text_order::text_lt;

verus! {

/// No operation changes the home directory.
pub proof fn law_home_never_changes(
    state: NavigationView,
    path: Seq<char>,
    request: LoadRequestView,
    outcome: Result<Seq<EntryView>, ErrorKind>,
    show: bool,
    index: int,
)
    ensures
        state.navigate_to(path).0.home_directory == state.home_directory,
        state.go_back().0.home_directory == state.home_directory,
        state.go_home().0.home_directory == state.home_directory,
        state.complete_load(request, outcome).home_directory == state.home_directory,
        state.set_show_hidden(show).home_directory == state.home_directory,
        state.select(index).home_directory == state.home_directory,
{
}

/// Every operation keeps the invariants of the state: the entries are in
/// listing order, the selection points into the listing, the generation
/// is within its range.
pub proof fn law_operations_keep_invariants(
    state: NavigationView,
    path: Seq<char>,
    request: LoadRequestView,
    outcome: Result<Seq<EntryView>, ErrorKind>,
    show: bool,
    index: int,
)
    requires
        state.wf(),
    ensures
        NavigationView::initial(path).wf(),
        state.navigate_to(path).0.wf(),
        state.go_back().0.wf(),
        state.go_home().0.wf(),
        state.complete_load(request, outcome).wf(),
        state.set_show_hidden(show).wf(),
        state.select(index).wf(),
{
    if let Ok(raw) = outcome {
        lemma_arrange(raw);
    }
}

/// A navigation is a request and the outcome of its read. Where the read
/// succeeds, the directory asked for is put on display with its entries in
/// listing order and nothing selected, and the new listing is announced.
/// Where the read fails, what is on display and what is selected stay as
/// they were, and the failure is reported.
pub proof fn law_navigation(
    state: NavigationView,
    path: Seq<char>,
    outcome: Result<Seq<EntryView>, ErrorKind>,
)
    ensures
        ({
            let (issued, request) = state.navigate_to(path);
            let settled = issued.complete_load(request, outcome);
            let event = issued.load_event(request, outcome);
            match outcome {
                Ok(raw) => {
                    &&& settled == NavigationView {
                        current_directory: path,
                        entries: arrange(raw),
                        selected_index: None,
                        ..issued
                    }
                    &&& settled.parent_directory() == path_parent(path)
                    &&& event == Some(EventView::DirectoryLoaded(path))
                },
                Err(kind) => {
                    &&& settled == issued
                    &&& settled.current_directory == state.current_directory
                    &&& settled.listing() == state.listing()
                    &&& settled.selected_index == state.selected_index
                    &&& event == Some(EventView::LoadFailed(ErrorView::IoError(kind)))
                },
            }
        }),
{
}

/// Once a directory has been loaded and hidden entries are switched off,
/// the listing holds no hidden entry.
pub proof fn law_hidden_entries_are_filtered(
    state: NavigationView,
    path: Seq<char>,
    raw: Seq<EntryView>,
)
    ensures
        ({
            let (issued, request) = state.navigate_to(path);
            let loaded = issued.complete_load(request, Ok(raw));
            let listing = loaded.set_show_hidden(false).listing();
            &&& loaded.current_directory == path
            &&& forall|i: int| 0 <= i < listing.len() ==> !(#[trigger] listing[i]).is_hidden
        }),
{
}

/// The listing after a load depends on the entries read and on the toggle
/// alone: it is what becomes of the entries read when they are filtered
/// and put in listing order, whichever is done first.
pub proof fn law_listing_is_filtered_and_ordered(
    state: NavigationView,
    request: LoadRequestView,
    raw: Seq<EntryView>,
)
    requires
        state.is_current(request),
    ensures
        state.complete_load(request, Ok(raw)).listing() == visible(
            arrange(raw),
            state.show_hidden,
        ),
        state.complete_load(request, Ok(raw)).listing() == arrange(
            visible(raw, state.show_hidden),
        ),
{
    lemma_filter_commutes_with_arrange(raw, shown(state.show_hidden));
}

/// The listing never holds a hidden entry while hidden entries are
/// switched off, and holds every entry of the directory while they are
/// switched on.
pub proof fn law_listing_follows_toggle(state: NavigationView)
    ensures
        !state.show_hidden ==> forall|i: int|
            0 <= i < state.listing().len() ==> !(#[trigger] state.listing()[i]).is_hidden,
        state.show_hidden ==> state.listing() == state.entries,
{
    lemma_show_all(state.entries);
}

/// Setting the hidden-items toggle to the other value and back gives the
/// listing it started from, in content and in order.
pub proof fn law_toggle_twice_restores_listing(state: NavigationView)
    ensures
        state.set_show_hidden(!state.show_hidden).set_show_hidden(state.show_hidden).listing()
            == state.listing(),
        state.set_show_hidden(!state.show_hidden).set_show_hidden(state.show_hidden).entries
            == state.entries,
{
}

/// Setting the hidden-items toggle announces a new listing exactly when
/// the listing changes: when the toggle changes and some entry of the
/// directory is hidden.
pub proof fn law_toggle_event(state: NavigationView, show: bool)
    ensures
        state.show_hidden_event(show) is Some <==> state.set_show_hidden(show).listing()
            != state.listing(),
        state.show_hidden_event(show) is Some <==> show != state.show_hidden && exists|i: int|
            0 <= i < state.entries.len() && (#[trigger] state.entries[i]).is_hidden,
        state.show_hidden_event(show) is Some ==> state.show_hidden_event(show) == Some(
            EventView::DirectoryLoaded(state.current_directory),
        ),
{
    lemma_show_all(state.entries);
    lemma_hide_changes(state.entries);
}

/// A call that changes the hidden-items toggle clears the selection.
pub proof fn law_filter_change_clears_selection(state: NavigationView, show: bool)
    requires
        show != state.show_hidden,
    ensures
        state.set_show_hidden(show).selected_index is None,
{
}

/// In the listing, directories come before files, and entries of one kind
/// come in the case-sensitive order of their names.
pub proof fn law_listing_order(state: NavigationView, i: int, j: int)
    requires
        state.wf(),
        0 <= i < j < state.listing().len(),
    ensures
        state.listing()[i].is_directory || !state.listing()[j].is_directory,
        state.listing()[i].is_directory == state.listing()[j].is_directory ==> state.listing()[i].name
            == state.listing()[j].name || text_lt(state.listing()[i].name, state.listing()[j].name),
{
    lemma_filter_keeps_order(state.entries, shown(state.show_hidden));
    assert(entry_order()(state.listing()[i], state.listing()[j]));
}

/// The entries that a load puts on display are those that were read, each
/// as often as it was read, and their order does not depend on the order
/// in which they were enumerated.
pub proof fn law_order_ignores_enumeration(first: Seq<EntryView>, second: Seq<EntryView>)
    requires
        first.to_multiset() == second.to_multiset(),
    ensures
        arrange(first) == arrange(second),
        arrange(first).to_multiset() == first.to_multiset(),
        in_listing_order(arrange(first)),
{
    lemma_arrange(first);
    lemma_arrange_unique(second, arrange(first));
}

/// Going back where there is no parent changes nothing and asks for
/// nothing; at any other place it is a navigation to the parent.
pub proof fn law_back_stops_at_the_root(state: NavigationView)
    ensures
        state.parent_directory() is None ==> state.go_back() == (state, None::<LoadRequestView>),
        state.parent_directory() matches Some(parent) ==> state.go_back() == (
            state.navigate_to(parent).0,
            Some(state.navigate_to(parent).1),
        ),
{
}

/// A click on an entry that is not the selected one selects it; a second
/// click on it activates it and leaves it selected.
pub proof fn law_second_click_activates(state: NavigationView, index: int)
    requires
        0 <= index < state.listing().len(),
        state.selected_index != Some(index),
    ensures
        state.select_event(index) == Some(EventView::SelectionChanged(index)),
        state.select(index).selected_index == Some(index),
        state.select(index).select_event(index) == Some(
            EventView::ActivateRequested(state.listing()[index]),
        ),
        state.select(index).select(index) == state.select(index),
{
}

/// A click past the end of the listing does nothing.
pub proof fn law_click_out_of_bounds_is_idle(state: NavigationView, index: int)
    requires
        !(0 <= index < state.listing().len()),
    ensures
        state.select(index) == state,
        state.select_event(index) is None,
{
}

/// A successful load of the latest request puts its directory on display
/// and clears the selection.
pub proof fn law_load_clears_selection(
    state: NavigationView,
    request: LoadRequestView,
    raw: Seq<EntryView>,
)
    requires
        state.is_current(request),
    ensures
        state.complete_load(request, Ok(raw)).selected_index is None,
        state.complete_load(request, Ok(raw)).current_directory == request.path,
        state.load_event(request, Ok(raw)) == Some(EventView::DirectoryLoaded(request.path)),
{
}

/// A failed load leaves the state exactly as it was and is reported with
/// the classification of the failure.
pub proof fn law_failed_load_changes_nothing(
    state: NavigationView,
    request: LoadRequestView,
    kind: ErrorKind,
)
    ensures
        state.complete_load(request, Err(kind)) == state,
        state.is_current(request) ==> state.load_event(request, Err(kind)) == Some(
            EventView::LoadFailed(ErrorView::IoError(kind)),
        ),
{
}

/// A read that failed, for the directory itself or for any child of it,
/// puts nothing on display: a load is all or nothing.
pub proof fn law_partial_read_changes_nothing(
    state: NavigationView,
    request: LoadRequestView,
    read: Result<Vec<Result<DirectoryEntry, ErrorKind>>, ErrorKind>,
)
    requires
        read matches Ok(children) ==> first_failure(children@) is Some,
    ensures
        loaded(read) is Err,
        state.complete_load(request, loaded(read)) == state,
{
}

/// Of two overlapping requests the one issued later decides: when the
/// earlier request's outcome comes in after the later one's, it is dropped
/// without an event, whatever it is.
pub proof fn law_latest_request_wins(
    state: NavigationView,
    earlier: Seq<char>,
    later: Seq<char>,
    earlier_outcome: Result<Seq<EntryView>, ErrorKind>,
    later_entries: Seq<EntryView>,
)
    ensures
        ({
            let (first_issued, first) = state.navigate_to(earlier);
            let (both_issued, second) = first_issued.navigate_to(later);
            let settled = both_issued.complete_load(second, Ok(later_entries));
            &&& settled.current_directory == later
            &&& settled.complete_load(first, earlier_outcome) == settled
            &&& settled.load_event(first, earlier_outcome) is None
        }),
{
}

/// The state after a read of each of `paths` has been issued, one after the
/// other.
pub open spec fn after_issuing(state: NavigationView, paths: Seq<Seq<char>>) -> NavigationView
    decreases paths.len(),
{
    if paths.len() == 0 {
        state
    } else {
        after_issuing(state.navigate_to(paths[0]).0, paths.drop_first())
    }
}

/// Issuing reads changes nothing but the generation, which moves on by the
/// number of reads issued and starts over after its last value.
proof fn lemma_after_issuing(state: NavigationView, paths: Seq<Seq<char>>)
    requires
        0 <= state.generation <= u64::MAX,
        paths.len() <= u64::MAX + 1,
    ensures
        after_issuing(state, paths) == (NavigationView {
            generation: after_issuing(state, paths).generation,
            ..state
        }),
        after_issuing(state, paths).generation == if state.generation + paths.len() <= u64::MAX {
            state.generation + paths.len()
        } else {
            state.generation + paths.len() - u64::MAX - 1
        },
    decreases paths.len(),
{
    if paths.len() > 0 {
        lemma_after_issuing(state.navigate_to(paths[0]).0, paths.drop_first());
    }
}

/// A request is overtaken by every request issued after it: once any
/// number of further reads has been issued, its outcome is dropped. (The
/// generation counter starts over after 2^64 requests; the law speaks of
/// fewer than that many in between.)
pub proof fn law_overtaken_request_is_stale(
    state: NavigationView,
    path: Seq<char>,
    later: Seq<Seq<char>>,
    outcome: Result<Seq<EntryView>, ErrorKind>,
)
    requires
        state.wf(),
        0 < later.len() <= u64::MAX,
    ensures
        ({
            let (issued, request) = state.navigate_to(path);
            let overtaken = after_issuing(issued, later);
            &&& !overtaken.is_current(request)
            &&& overtaken.complete_load(request, outcome) == overtaken
            &&& overtaken.load_event(request, outcome) is None
        }),
{
    lemma_after_issuing(state.navigate_to(path).0, later);
}

/// Going back and going home by way of messages is what `go_back` and
/// `go_home` do.
pub proof fn law_messages_follow_operations(state: NavigationView)
    ensures
        match state.route(AppInput::Back) {
            Some(message) => state.go_back().1 matches Some(request) && state.update(message) == (
                state.go_back().0,
                EffectView::Load(request),
            ),
            None => state.go_back() == (state, None::<LoadRequestView>),
        },
        state.route(AppInput::Home) matches Some(message) && state.update(message) == (
            state.go_home().0,
            EffectView::Load(state.go_home().1),
        ),
{
}

/// The outcome of a request that is not the latest one issued changes
/// nothing and emits nothing.
pub proof fn law_stale_outcome_is_dropped(
    state: NavigationView,
    request: LoadRequestView,
    outcome: Result<Seq<EntryView>, ErrorKind>,
)
    requires
        !state.is_current(request),
    ensures
        state.complete_load(request, outcome) == state,
        state.load_event(request, outcome) is None,
{
}

} // verus!
