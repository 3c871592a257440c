use file_explorer::{DirectoryEntry, Listing};

fn file(name: &str) -> DirectoryEntry {
    DirectoryEntry::with_dot_rule(name.to_owned(), format!("/d/{}", name), false)
}

fn dir(name: &str) -> DirectoryEntry {
    DirectoryEntry::with_dot_rule(name.to_owned(), format!("/d/{}", name), true)
}

fn names(listing: &Listing) -> Vec<String> {
    let mut out = Vec::new();
    let mut i = 0;
    while let Some(entry) = listing.get(i) {
        out.push(entry.name().to_owned());
        i += 1;
    }
    assert_eq!(i, listing.len());
    out
}

#[test]
fn the_fixture_directory_is_listed_in_order() {
    let listing = Listing::from_entries(vec![file("b.txt"), dir("A"), file("a.txt"), dir("B")]);
    assert_eq!(names(&listing), vec!["A", "B", "a.txt", "b.txt"]);
}

#[test]
fn the_fixture_names_are_ordered_case_sensitively_among_files() {
    let listing = Listing::from_entries(vec![file("b.txt"), file("A"), file("a.txt"), file("B")]);
    assert_eq!(names(&listing), vec!["A", "B", "a.txt", "b.txt"]);
}

#[test]
fn directories_are_listed_before_files() {
    let listing = Listing::from_entries(vec![file("a"), dir("z"), file("M"), dir("b")]);
    assert_eq!(names(&listing), vec!["b", "z", "M", "a"]);
    assert!(listing.get(0).unwrap().is_directory());
    assert!(listing.get(1).unwrap().is_directory());
    assert!(!listing.get(2).unwrap().is_directory());
}

#[test]
fn the_order_of_enumeration_does_not_matter() {
    let one = Listing::from_entries(vec![file("c"), dir("x"), file(".a"), file("b"), dir("d")]);
    let other = Listing::from_entries(vec![dir("d"), file("b"), file(".a"), dir("x"), file("c")]);
    assert_eq!(names(&one), vec!["d", "x", ".a", "b", "c"]);
    assert_eq!(names(&one), names(&other));
}

#[test]
fn an_empty_directory_has_an_empty_listing() {
    let listing = Listing::from_entries(Vec::new());
    assert_eq!(listing.len(), 0);
    assert!(listing.get(0).is_none());
    assert_eq!(listing.visible(false).len(), 0);
    assert_eq!(Listing::new().len(), 0);
}

#[test]
fn an_entry_read_twice_is_listed_twice() {
    let listing = Listing::from_entries(vec![file("a"), file("b"), file("a")]);
    assert_eq!(names(&listing), vec!["a", "a", "b"]);
}

#[test]
fn a_position_past_the_end_holds_no_entry() {
    let listing = Listing::from_entries(vec![file("a"), file("b")]);
    assert_eq!(listing.len(), 2);
    assert_eq!(listing.get(1).unwrap().name(), "b");
    assert!(listing.get(2).is_none());
    assert!(listing.get(usize::MAX).is_none());
}

#[test]
fn hiding_keeps_the_unhidden_entries_in_order() {
    let listing = Listing::from_entries(vec![
        file("b"),
        file(".profile"),
        dir(".git"),
        dir("src"),
        file("a"),
    ]);
    assert_eq!(names(&listing), vec![".git", "src", ".profile", "a", "b"]);
    let unhidden = listing.visible(false);
    assert_eq!(names(&unhidden), vec!["src", "a", "b"]);
    assert_eq!(names(&unhidden.visible(false)), vec!["src", "a", "b"]);
}

#[test]
fn showing_hidden_entries_keeps_every_entry() {
    let listing = Listing::from_entries(vec![file("b"), file(".profile"), dir(".git")]);
    assert_eq!(names(&listing.visible(true)), vec![".git", ".profile", "b"]);
    assert_eq!(names(&listing.visible(true)), names(&listing));
}

#[test]
fn hiding_goes_by_the_flag_not_by_the_name() {
    let flagged = DirectoryEntry::new("plain".to_owned(), "/d/plain".to_owned(), false, true);
    let dotted = DirectoryEntry::new(".dotted".to_owned(), "/d/.dotted".to_owned(), false, false);
    let listing = Listing::from_entries(vec![flagged, dotted]);
    assert_eq!(names(&listing.visible(false)), vec![".dotted"]);
    assert_eq!(names(&listing.visible(true)), vec![".dotted", "plain"]);
}

#[test]
fn a_long_directory_is_listed_in_order() {
    let mut raw = Vec::new();
    for i in (0..200).rev() {
        raw.push(file(&format!("f{:03}", (i * 37) % 200)));
    }
    let listing = Listing::from_entries(raw);
    assert_eq!(listing.len(), 200);
    for i in 0..200 {
        assert_eq!(listing.get(i).unwrap().name(), format!("f{:03}", i));
    }
}

#[test]
fn names_outside_ascii_are_listed_after_ascii_names() {
    let listing = Listing::from_entries(vec![file("éclair"), file("zebra"), file("Zoo"), file("apple")]);
    assert_eq!(names(&listing), vec!["Zoo", "apple", "zebra", "éclair"]);
}
