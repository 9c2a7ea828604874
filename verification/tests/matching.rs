use snote2::snote::SNoteSection;
use snote2::snotter::Snotter;
use snote2::snotter::has_snot_extension;
use snote2::snotter::str_contains;

fn entries(names: &[&str]) -> Vec<String> {
    names.iter().map(|n| n.to_string()).collect()
}

#[test]
fn substring_search_finds_inner_matches() {
    assert!(str_contains("apple.snot", "ppl"));
    assert!(str_contains("apple.snot", "apple.snot"));
    assert!(str_contains("apple.snot", ""));
    assert!(!str_contains("apple.snot", "banana"));
    assert!(!str_contains("ab", "abc"));
    assert!(str_contains("", ""));
    assert!(!str_contains("", "a"));
}

#[test]
fn snot_extension_requires_a_stem() {
    assert!(has_snot_extension("a.snot"));
    assert!(has_snot_extension("note.2022.snot"));
    assert!(!has_snot_extension(".snot"));
    assert!(!has_snot_extension("snot"));
    assert!(!has_snot_extension("a.snot.txt"));
    assert!(!has_snot_extension(""));
}

#[test]
fn matching_notes_filters_by_extension_and_query() {
    let mut snotter = Snotter::default();
    snotter.search_query = "ap".to_string();
    let found = snotter.get_matching_notes(&entries(&[
        "apple.snot",
        "banana.snot",
        "apricot.txt",
        ".snot",
        "map.snot",
    ]));
    assert_eq!(found, entries(&["apple.snot", "map.snot"]));
}

#[test]
fn empty_query_matches_every_note_file() {
    let snotter = Snotter::default();
    let found = snotter.get_matching_notes(&entries(&["a.snot", "b.txt", "c.snot"]));
    assert_eq!(found, entries(&["a.snot", "c.snot"]));
}

#[test]
fn selecting_a_file_updates_query_and_note() {
    let mut snotter = Snotter::default();
    snotter.search_query = "que".to_string();
    snotter.select_file_from_autocomplete("dir/pick.snot".to_string(), "* headline\nbody");
    assert_eq!(&snotter.search_query, "dir/pick.snot");
    assert_eq!(snotter.note.0.as_deref(), Some("dir/pick.snot"));
    let note = snotter.note.1.as_ref().unwrap();
    assert_eq!(&note.raw_content, "* headline\nbody");
    assert_eq!(
        note.sections,
        vec![
            SNoteSection::Headline { start: 0, end: 11 },
            SNoteSection::Paragraph { start: 11, end: 15 },
        ]
    );
}
