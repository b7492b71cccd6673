use seedshotter::trigger::contains_trigger;
use seedshotter::trigger::default_trigger;
use seedshotter::trigger::select_matching;
use seedshotter::trigger::DEFAULT_TRIGGER;

#[test]
fn trigger_in_the_middle_of_a_line_is_found() {
    assert!(contains_trigger(
        b"12:00 Players finished generating the new floor (3)",
        b"Players finished generating the new floor"
    ));
}

#[test]
fn trigger_that_is_the_whole_line_is_found() {
    assert!(contains_trigger(
        b"Players finished generating the new floor",
        DEFAULT_TRIGGER.as_bytes()
    ));
}

#[test]
fn trigger_at_the_start_and_at_the_end_is_found() {
    assert!(contains_trigger(b"floor is lava", b"floor"));
    assert!(contains_trigger(b"the new floor", b"floor"));
}

#[test]
fn absent_trigger_is_not_found() {
    assert!(!contains_trigger(b"foo", b"Players finished generating the new floor"));
    assert!(!contains_trigger(b"bar", b"baz"));
}

#[test]
fn containment_is_case_sensitive() {
    assert!(!contains_trigger(b"players finished generating the new floor", DEFAULT_TRIGGER.as_bytes()));
    assert!(!contains_trigger(b"FLOOR", b"floor"));
}

#[test]
fn trigger_cut_short_by_the_line_end_is_not_found() {
    assert!(!contains_trigger(b"Players finished generating the new floo", DEFAULT_TRIGGER.as_bytes()));
    assert!(!contains_trigger(b"ab", b"abc"));
}

#[test]
fn trigger_after_a_false_start_is_found() {
    assert!(contains_trigger(b"aaab", b"aab"));
    assert!(contains_trigger(b"abababc", b"ababc"));
}

#[test]
fn empty_trigger_is_in_every_line() {
    assert!(contains_trigger(b"anything", b""));
    assert!(contains_trigger(b"", b""));
}

#[test]
fn nothing_but_the_empty_trigger_is_in_the_empty_line() {
    assert!(!contains_trigger(b"", b"a"));
}

#[test]
fn default_trigger_is_the_floor_line() {
    assert_eq!(default_trigger(), b"Players finished generating the new floor".to_vec());
    assert_eq!(DEFAULT_TRIGGER, "Players finished generating the new floor");
}

#[test]
fn matching_lines_are_kept_in_order() {
    let lines = vec![
        b"x floor 1".to_vec(),
        b"nothing".to_vec(),
        b"floor 2".to_vec(),
        b"flo".to_vec(),
        b"3 floor".to_vec(),
    ];
    let hits = select_matching(&lines, b"floor");
    assert_eq!(hits, vec![b"x floor 1".to_vec(), b"floor 2".to_vec(), b"3 floor".to_vec()]);
}

#[test]
fn line_with_two_occurrences_is_kept_once() {
    let lines = vec![b"floor floor".to_vec()];
    assert_eq!(select_matching(&lines, b"floor"), vec![b"floor floor".to_vec()]);
}

#[test]
fn no_lines_give_no_matches() {
    let lines: Vec<Vec<u8>> = Vec::new();
    assert_eq!(select_matching(&lines, b"floor"), Vec::<Vec<u8>>::new());
    let others = vec![b"a".to_vec(), b"b".to_vec()];
    assert_eq!(select_matching(&others, b"floor"), Vec::<Vec<u8>>::new());
}
