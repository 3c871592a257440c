use file_explorer::navigation::Effect;
use file_explorer::{
    DirectoryEntry, Error, ErrorKind, Listing, NavigationEvent, NavigationState,
};

fn file(directory: &str, name: &str) -> DirectoryEntry {
    DirectoryEntry::with_dot_rule(name.to_owned(), format!("{}/{}", directory, name), false)
}

fn dir(directory: &str, name: &str) -> DirectoryEntry {
    DirectoryEntry::with_dot_rule(name.to_owned(), format!("{}/{}", directory, name), true)
}

fn names(listing: &Listing) -> Vec<String> {
    let mut out = Vec::new();
    let mut i = 0;
    while let Some(entry) = listing.get(i) {
        out.push(entry.name().to_owned());
        i += 1;
    }
    out
}

/// A state at `/home/user` that shows `/data` with the given entries.
fn showing(entries: Vec<DirectoryEntry>) -> NavigationState {
    let mut state = NavigationState::new("/home/user".to_owned());
    let request = state.navigate_to("/data".to_owned());
    let event = state.complete_load(request, Ok(Listing::from_entries(entries)));
    assert_eq!(event, Some(NavigationEvent::DirectoryLoaded("/data".to_owned())));
    state
}

fn mixed() -> Vec<DirectoryEntry> {
    vec![
        file("/data", "b.txt"),
        file("/data", ".hidden"),
        dir("/data", "A"),
        file("/data", "a.txt"),
        dir("/data", ".git"),
        dir("/data", "B"),
    ]
}

#[test]
fn a_new_state_is_at_home_with_nothing_read() {
    let state = NavigationState::new("/home/user".to_owned());
    assert_eq!(state.home_directory(), "/home/user");
    assert_eq!(state.current_directory(), "/home/user");
    assert_eq!(state.parent_directory(), Some("/home".to_owned()));
    assert!(!state.show_hidden());
    assert_eq!(state.listing().len(), 0);
    assert_eq!(state.selected_index(), None);
}

#[test]
fn the_parent_is_the_path_without_its_last_component() {
    assert_eq!(
        NavigationState::new("/home/user".to_owned()).parent_directory(),
        Some("/home".to_owned())
    );
    assert_eq!(NavigationState::new("/home".to_owned()).parent_directory(), Some("/".to_owned()));
    assert_eq!(NavigationState::new("/".to_owned()).parent_directory(), None);
    assert_eq!(NavigationState::new("".to_owned()).parent_directory(), None);
    assert_eq!(NavigationState::new("docs".to_owned()).parent_directory(), Some("".to_owned()));
    assert_eq!(
        NavigationState::new("/home/user/".to_owned()).parent_directory(),
        Some("/home".to_owned())
    );
    assert_eq!(
        NavigationState::new("a/b/c".to_owned()).parent_directory(),
        Some("a/b".to_owned())
    );
}

#[test]
fn hidden_entries_stay_out_after_a_load() {
    let mut state = showing(mixed());
    state.set_show_hidden(false);
    let listing = state.listing();
    assert_eq!(names(listing), vec!["A", "B", "a.txt", "b.txt"]);
    let mut i = 0;
    while let Some(entry) = listing.get(i) {
        assert!(!entry.is_hidden());
        i += 1;
    }
    assert_eq!(i, 4);
}

#[test]
fn showing_hidden_entries_lists_every_entry() {
    let mut state = showing(mixed());
    let event = state.set_show_hidden(true);
    assert_eq!(event, Some(NavigationEvent::DirectoryLoaded("/data".to_owned())));
    assert!(state.show_hidden());
    assert_eq!(names(state.listing()), vec![".git", "A", "B", ".hidden", "a.txt", "b.txt"]);
}

#[test]
fn toggling_twice_restores_the_listing() {
    let mut state = showing(mixed());
    let before = names(state.listing());
    assert_eq!(before, vec!["A", "B", "a.txt", "b.txt"]);
    let first = state.toggle_show_hidden();
    assert_eq!(first, Some(NavigationEvent::DirectoryLoaded("/data".to_owned())));
    assert!(state.show_hidden());
    assert_eq!(state.listing().len(), 6);
    let second = state.toggle_show_hidden();
    assert_eq!(second, Some(NavigationEvent::DirectoryLoaded("/data".to_owned())));
    assert!(!state.show_hidden());
    assert_eq!(names(state.listing()), before);
}

#[test]
fn setting_the_toggle_to_its_value_does_nothing() {
    let mut state = showing(mixed());
    assert_eq!(state.select(1), Some(NavigationEvent::SelectionChanged(1)));
    assert_eq!(state.set_show_hidden(false), None);
    assert!(!state.show_hidden());
    assert_eq!(state.selected_index(), Some(1));
    assert_eq!(state.listing().len(), 4);
}

#[test]
fn a_toggle_that_changes_nothing_visible_emits_nothing() {
    let mut state = showing(vec![file("/data", "a"), dir("/data", "b")]);
    assert_eq!(state.select(0), Some(NavigationEvent::SelectionChanged(0)));
    assert_eq!(state.set_show_hidden(true), None);
    assert!(state.show_hidden());
    assert_eq!(state.selected_index(), None);
    assert_eq!(names(state.listing()), vec!["b", "a"]);
}

#[test]
fn changing_the_toggle_clears_the_selection() {
    let mut state = showing(mixed());
    assert_eq!(state.select(2), Some(NavigationEvent::SelectionChanged(2)));
    assert_eq!(state.selected_index(), Some(2));
    state.toggle_show_hidden();
    assert_eq!(state.selected_index(), None);
}

#[test]
fn the_listing_of_the_fixture_directory_is_in_order() {
    let state = showing(vec![
        file("/data", "b.txt"),
        dir("/data", "A"),
        file("/data", "a.txt"),
        dir("/data", "B"),
    ]);
    assert_eq!(names(state.listing()), vec!["A", "B", "a.txt", "b.txt"]);
}

#[test]
fn going_back_from_the_root_does_nothing() {
    let mut state = NavigationState::new("/".to_owned());
    let request = state.navigate_to("/".to_owned());
    state.complete_load(request, Ok(Listing::from_entries(vec![dir("", "home"), file("", "vmlinuz")])));
    state.select(1);
    let generation = state.navigate_to("/".to_owned()).generation();

    assert!(state.go_back().is_none());

    assert_eq!(state.current_directory(), "/");
    assert_eq!(state.parent_directory(), None);
    assert_eq!(names(state.listing()), vec!["home", "vmlinuz"]);
    assert_eq!(state.selected_index(), Some(1));
    assert_eq!(state.navigate_to("/".to_owned()).generation(), generation + 1);
}

#[test]
fn going_back_asks_for_the_parent() {
    let mut state = NavigationState::new("/home/user".to_owned());
    let request = state.go_back().unwrap();
    assert_eq!(request.path(), "/home");
    assert_eq!(state.current_directory(), "/home/user");
    let event = state.complete_load(request, Ok(Listing::from_entries(vec![dir("/home", "user")])));
    assert_eq!(event, Some(NavigationEvent::DirectoryLoaded("/home".to_owned())));
    assert_eq!(state.current_directory(), "/home");
    assert_eq!(state.parent_directory(), Some("/".to_owned()));
    assert_eq!(names(state.listing()), vec!["user"]);
}

#[test]
fn going_home_asks_for_the_home_directory() {
    let mut state = showing(mixed());
    let request = state.go_home();
    assert_eq!(request.path(), "/home/user");
    assert_eq!(state.current_directory(), "/data");
    state.complete_load(request, Ok(Listing::new()));
    assert_eq!(state.current_directory(), "/home/user");
    assert_eq!(state.home_directory(), "/home/user");
    assert_eq!(state.listing().len(), 0);
}

#[test]
fn a_first_click_selects_and_a_second_click_activates() {
    let mut state = showing(vec![
        file("/data", "a"),
        file("/data", "b"),
        file("/data", "c"),
    ]);
    assert_eq!(state.select(2), Some(NavigationEvent::SelectionChanged(2)));
    assert_eq!(state.selected_index(), Some(2));
    assert_eq!(
        state.select(2),
        Some(NavigationEvent::ActivateRequested(file("/data", "c")))
    );
    assert_eq!(state.selected_index(), Some(2));

    assert_eq!(state.select(5), None);
    assert_eq!(state.selected_index(), Some(2));
    assert_eq!(state.select(3), None);
    assert_eq!(state.listing().len(), 3);
}

#[test]
fn a_click_elsewhere_moves_the_selection() {
    let mut state = showing(mixed());
    assert_eq!(state.select(0), Some(NavigationEvent::SelectionChanged(0)));
    assert_eq!(state.select(3), Some(NavigationEvent::SelectionChanged(3)));
    assert_eq!(state.selected_index(), Some(3));
    assert_eq!(
        state.select(3),
        Some(NavigationEvent::ActivateRequested(file("/data", "b.txt")))
    );
    assert_eq!(
        state.select(0),
        Some(NavigationEvent::SelectionChanged(0))
    );
    assert_eq!(
        state.select(0),
        Some(NavigationEvent::ActivateRequested(dir("/data", "A")))
    );
}

#[test]
fn a_click_in_an_empty_listing_does_nothing() {
    let mut state = NavigationState::new("/home/user".to_owned());
    assert_eq!(state.select(0), None);
    assert_eq!(state.selected_index(), None);
}

#[test]
fn a_successful_load_clears_the_selection() {
    let mut state = showing(mixed());
    state.select(1);
    assert_eq!(state.selected_index(), Some(1));
    let request = state.navigate_to("/data/A".to_owned());
    assert_eq!(state.selected_index(), Some(1));
    let event = state.complete_load(request, Ok(Listing::from_entries(vec![file("/data/A", "x"), file("/data/A", "y")])));
    assert_eq!(event, Some(NavigationEvent::DirectoryLoaded("/data/A".to_owned())));
    assert_eq!(state.selected_index(), None);
    assert_eq!(state.current_directory(), "/data/A");
    assert_eq!(state.parent_directory(), Some("/data".to_owned()));
    assert_eq!(names(state.listing()), vec!["x", "y"]);
}

#[test]
fn the_request_issued_last_decides() {
    let mut state = NavigationState::new("/home/user".to_owned());
    let a = state.navigate_to("/x".to_owned());
    let b = state.navigate_to("/y".to_owned());
    assert_eq!(a.path(), "/x");
    assert_eq!(b.path(), "/y");
    assert_eq!(b.generation(), a.generation() + 1);

    let event = state.complete_load(b, Ok(Listing::from_entries(vec![file("/y", "in_y")])));
    assert_eq!(event, Some(NavigationEvent::DirectoryLoaded("/y".to_owned())));
    let event = state.complete_load(a, Ok(Listing::from_entries(vec![file("/x", "in_x")])));
    assert_eq!(event, None);

    assert_eq!(state.current_directory(), "/y");
    assert_eq!(names(state.listing()), vec!["in_y"]);
}

#[test]
fn an_overtaken_request_is_dropped_when_it_comes_in_first() {
    let mut state = NavigationState::new("/home/user".to_owned());
    let a = state.navigate_to("/x".to_owned());
    let b = state.navigate_to("/y".to_owned());

    assert_eq!(state.complete_load(a, Ok(Listing::from_entries(vec![file("/x", "in_x")]))), None);
    assert_eq!(state.current_directory(), "/home/user");
    assert_eq!(state.listing().len(), 0);

    let event = state.complete_load(b, Err(ErrorKind::PermissionDenied));
    assert_eq!(
        event,
        Some(NavigationEvent::LoadFailed(Error::IoError(ErrorKind::PermissionDenied)))
    );
    assert_eq!(state.current_directory(), "/home/user");
}

#[test]
fn a_failed_load_leaves_the_state_as_it_was() {
    let mut state = NavigationState::new("/home/user".to_owned());
    let request = state.navigate_to("/home/user".to_owned());
    state.complete_load(request, Ok(Listing::from_entries(vec![file("/home/user", "a"), file("/home/user", "b")])));
    state.select(1);

    let request = state.navigate_to("/no/such/directory".to_owned());
    let event = state.complete_load(request, Err(ErrorKind::NotFound));

    assert_eq!(event, Some(NavigationEvent::LoadFailed(Error::IoError(ErrorKind::NotFound))));
    assert_eq!(state.current_directory(), "/home/user");
    assert_eq!(names(state.listing()), vec!["a", "b"]);
    assert_eq!(state.selected_index(), Some(1));
}

#[test]
fn every_kind_of_failure_is_reported_as_it_is() {
    for kind in [ErrorKind::NotFound, ErrorKind::PermissionDenied, ErrorKind::OtherIo] {
        let mut state = NavigationState::new("/home/user".to_owned());
        let request = state.navigate_to("/data".to_owned());
        assert_eq!(
            state.complete_load(request, Err(kind)),
            Some(NavigationEvent::LoadFailed(Error::IoError(kind)))
        );
    }
}

#[test]
fn generations_count_up_from_one() {
    let mut state = NavigationState::new("/home/user".to_owned());
    assert_eq!(state.navigate_to("/a".to_owned()).generation(), 1);
    assert_eq!(state.go_home().generation(), 2);
    assert_eq!(state.go_back().unwrap().generation(), 3);
    assert_eq!(state.navigate_to("/b".to_owned()).generation(), 4);
}

#[test]
fn the_toggle_applies_to_a_directory_loaded_later() {
    let mut state = NavigationState::new("/home/user".to_owned());
    assert_eq!(state.set_show_hidden(true), None);
    let request = state.navigate_to("/data".to_owned());
    state.complete_load(request, Ok(Listing::from_entries(mixed())));
    assert_eq!(state.listing().len(), 6);
    assert_eq!(
        state.set_show_hidden(false),
        Some(NavigationEvent::DirectoryLoaded("/data".to_owned()))
    );
    assert_eq!(state.listing().len(), 4);
}

#[test]
fn opening_reports_failures_only() {
    assert_eq!(NavigationState::request_open("/data/a.txt".to_owned(), Ok(())), None);
    assert_eq!(
        NavigationState::request_open("/data/a.txt".to_owned(), Err(ErrorKind::NotFound)),
        Some(NavigationEvent::OpenFailed(Error::OpenFileError(
            "/data/a.txt".to_owned(),
            ErrorKind::NotFound
        )))
    );
    assert_eq!(
        NavigationState::request_open("/b".to_owned(), Err(ErrorKind::OtherIo)),
        Some(NavigationEvent::OpenFailed(Error::OpenFileError(
            "/b".to_owned(),
            ErrorKind::OtherIo
        )))
    );
}

#[test]
fn the_seeds_of_the_widgets_follow_the_state() {
    let mut state = showing(mixed());
    let list = state.items_box_init();
    assert_eq!(list.current_dir(), "/data");
    assert!(!list.show_hidden_items());
    let toolbar = state.top_panel_init();
    assert!(toolbar.has_parent_dir());
    assert!(!toolbar.show_hidden_items());

    state.toggle_show_hidden();
    assert!(state.items_box_init().show_hidden_items());
    assert!(state.top_panel_init().show_hidden_items());

    let root = NavigationState::new("/".to_owned());
    assert_eq!(root.items_box_init().current_dir(), "/");
    assert!(!root.top_panel_init().has_parent_dir());
}

#[test]
fn an_effect_can_be_told_apart() {
    let mut state = showing(mixed());
    match state.update(file_explorer::messages::ItemsBoxInput::SelectItem(9)) {
        Effect::Idle => {}
        other => panic!("{:?}", other),
    }
}

#[test]
fn filtering_before_or_after_ordering_gives_one_listing() {
    let state = showing(mixed());
    let unhidden: Vec<DirectoryEntry> = mixed().into_iter().filter(|e| !e.is_hidden()).collect();
    assert_eq!(names(state.listing()), names(&Listing::from_entries(unhidden)));
    assert_eq!(names(state.listing()), names(&Listing::from_entries(mixed()).visible(false)));
}

#[test]
fn no_operation_changes_the_home_directory() {
    let mut state = showing(mixed());
    state.select(0);
    state.toggle_show_hidden();
    let request = state.go_back().unwrap();
    state.complete_load(request, Err(ErrorKind::OtherIo));
    let request = state.navigate_to("/elsewhere".to_owned());
    state.complete_load(request, Ok(Listing::new()));
    assert_eq!(state.home_directory(), "/home/user");
    assert_eq!(state.current_directory(), "/elsewhere");
}
