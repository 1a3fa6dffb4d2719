use statusline::compose::StatusLineComposer;
use statusline::compose::make_status;

#[test]
fn empty_segments_are_dropped() {
    let segments: Vec<String> = vec![
        String::from(""),
        String::from("♪ 42%"),
        String::from(""),
        String::from("Mon 01 Jan 10:00 AM"),
    ];
    assert_eq!(StatusLineComposer::compose(&segments), "♪ 42% • Mon 01 Jan 10:00 AM");
    assert_eq!(make_status(&segments), "♪ 42% • Mon 01 Jan 10:00 AM");
}

#[test]
fn all_empty_gives_empty_line() {
    let segments: Vec<String> = vec![String::from(""), String::from(""), String::from("")];
    assert_eq!(make_status(&segments), "");
}

#[test]
fn no_segments_gives_empty_line() {
    let segments: Vec<String> = Vec::new();
    assert_eq!(make_status(&segments), "");
}

#[test]
fn single_segment_has_no_separator() {
    let segments: Vec<String> = vec![String::from("alone")];
    assert_eq!(make_status(&segments), "alone");
}

#[test]
fn all_survivors_keep_order() {
    let segments: Vec<String> =
        vec![String::from("a"), String::from("b"), String::from("c"), String::from("d")];
    assert_eq!(make_status(&segments), "a • b • c • d");
}
