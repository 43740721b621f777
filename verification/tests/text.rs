use tunnyd::text::{chars_of, contains_text, same_text, split_text};

fn strings(items: &[&str]) -> Vec<String> {
    items.iter().map(|s| s.to_string()).collect()
}

#[test]
fn split_of_plain_list() {
    assert_eq!(split_text("alice,bob", ','), strings(&["alice", "bob"]));
}

#[test]
fn split_of_empty_text_is_one_empty_piece() {
    assert_eq!(split_text("", ','), strings(&[""]));
}

#[test]
fn split_without_separator_is_the_text_itself() {
    assert_eq!(split_text("alice", ','), strings(&["alice"]));
}

#[test]
fn split_keeps_empty_pieces() {
    assert_eq!(split_text(",", ','), strings(&["", ""]));
    assert_eq!(split_text("a,,b", ','), strings(&["a", "", "b"]));
    assert_eq!(split_text("a,", ','), strings(&["a", ""]));
    assert_eq!(split_text(",a", ','), strings(&["", "a"]));
}

#[test]
fn split_agrees_with_std_on_samples() {
    for sample in ["", ",", "a", "a,b,c", ",,", "ab,,cd,", "é,ü", " a , b "] {
        let expected: Vec<String> = sample.split(',').map(|s| s.to_string()).collect();
        assert_eq!(split_text(sample, ','), expected);
    }
}

#[test]
fn split_counts_characters_not_bytes() {
    assert_eq!(split_text("zoë,renée", ','), strings(&["zoë", "renée"]));
}

#[test]
fn chars_are_listed_in_order() {
    assert_eq!(chars_of("a,é"), vec!['a', ',', 'é']);
    assert_eq!(chars_of(""), Vec::<char>::new());
}

#[test]
fn same_text_compares_characters() {
    assert!(same_text("true", "true"));
    assert!(!same_text("true", "True"));
    assert!(!same_text("true", "true "));
    assert!(same_text("", ""));
}

#[test]
fn contains_text_looks_for_a_whole_entry() {
    let list = strings(&["alice", "bob"]);
    assert!(contains_text(&list, "bob"));
    assert!(!contains_text(&list, "bo"));
    assert!(!contains_text(&list, "carol"));
    assert!(!contains_text(&Vec::new(), "bob"));
}
