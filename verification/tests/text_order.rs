use file_explorer::path::{has_dot_name, is_hidden_attribute, HIDDEN_ATTRIBUTE};
use file_explorer::{compare_bytes, compare_text, Precedence};

#[test]
fn upper_case_comes_before_lower_case() {
    assert_eq!(compare_text("A", "a"), Precedence::Before);
    assert_eq!(compare_text("B", "a.txt"), Precedence::Before);
    assert_eq!(compare_text("a", "A"), Precedence::After);
}

#[test]
fn equal_texts_are_the_same() {
    assert_eq!(compare_text("a.txt", "a.txt"), Precedence::Same);
    assert_eq!(compare_text("", ""), Precedence::Same);
}

#[test]
fn a_proper_prefix_comes_first() {
    assert_eq!(compare_text("a", "ab"), Precedence::Before);
    assert_eq!(compare_text("ab", "a"), Precedence::After);
    assert_eq!(compare_text("", "a"), Precedence::Before);
    assert_eq!(compare_text("a", ""), Precedence::After);
}

#[test]
fn the_first_difference_decides() {
    assert_eq!(compare_text("a.txt", "b.txt"), Precedence::Before);
    assert_eq!(compare_text("abd", "abc"), Precedence::After);
    assert_eq!(compare_text("abc", "abd"), Precedence::Before);
}

#[test]
fn texts_outside_ascii_are_ordered_by_their_bytes() {
    // "z" is 0x7a, "é" starts with 0xc3.
    assert_eq!(compare_text("z", "é"), Precedence::Before);
    assert_eq!(compare_text("é", "z"), Precedence::After);
    assert_eq!(compare_text("é", "é"), Precedence::Same);
}

#[test]
fn bytes_are_compared_position_by_position() {
    assert_eq!(compare_bytes(&[1, 2, 3], &[1, 2, 4]), Precedence::Before);
    assert_eq!(compare_bytes(&[1, 2, 3], &[1, 2, 3]), Precedence::Same);
    assert_eq!(compare_bytes(&[2], &[1, 255]), Precedence::After);
    assert_eq!(compare_bytes(&[], &[0]), Precedence::Before);
    assert_eq!(compare_bytes(&[200], &[100]), Precedence::After);
}

#[test]
fn dot_names_start_with_a_full_stop() {
    assert!(has_dot_name(".git"));
    assert!(has_dot_name("."));
    assert!(has_dot_name(".."));
    assert!(!has_dot_name("a.txt"));
    assert!(!has_dot_name("git."));
    assert!(!has_dot_name(""));
}

#[test]
fn the_hidden_attribute_is_the_second_bit() {
    assert_eq!(HIDDEN_ATTRIBUTE, 2);
    assert!(is_hidden_attribute(2));
    assert!(is_hidden_attribute(6));
    assert!(!is_hidden_attribute(0));
    assert!(!is_hidden_attribute(5));
}
