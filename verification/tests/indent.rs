use kakasi::cli::errors::indented_lines;
use kakasi::cli::text::{chars_of, find_line_feed, push_chars, same_text};

#[test]
fn empty_text_has_no_line() {
    assert_eq!(indented_lines(""), "");
}

#[test]
fn one_line_is_indented_and_terminated() {
    assert_eq!(indented_lines("permission denied"), "  permission denied\n");
}

#[test]
fn final_line_feed_opens_no_further_line() {
    assert_eq!(indented_lines("a\n"), "  a\n");
    assert_eq!(indented_lines("a\nb\n"), "  a\n  b\n");
}

#[test]
fn every_line_is_indented() {
    assert_eq!(indented_lines("a\nb\nc"), "  a\n  b\n  c\n");
}

#[test]
fn empty_lines_stay_bare() {
    assert_eq!(indented_lines("a\n\nb"), "  a\n\n  b\n");
    assert_eq!(indented_lines("\n"), "\n");
    assert_eq!(indented_lines("\n\n"), "\n\n");
    assert_eq!(indented_lines("\na"), "\n  a\n");
}

#[test]
fn carriage_return_before_line_feed_is_part_of_the_terminator() {
    assert_eq!(indented_lines("a\r\nb"), "  a\n  b\n");
    assert_eq!(indented_lines("a\r\n"), "  a\n");
    assert_eq!(indented_lines("\r\n"), "\n");
    assert_eq!(indented_lines("a\r\r\nb"), "  a\r\n  b\n");
}

#[test]
fn lone_carriage_return_is_an_ordinary_character() {
    assert_eq!(indented_lines("a\rb"), "  a\rb\n");
    assert_eq!(indented_lines("a\r"), "  a\r\n");
    assert_eq!(indented_lines("\r"), "  \r\n");
}

#[test]
fn lines_of_spaces_are_not_empty() {
    assert_eq!(indented_lines(" \n  "), "   \n    \n");
}

#[test]
fn text_beyond_ascii_is_kept() {
    assert_eq!(indented_lines("héllo\nwörld ✓"), "  héllo\n  wörld ✓\n");
}

#[test]
fn indentation_agrees_with_the_lines_of_std() {
    let samples = ["", "x", "x\n", "\n", "a\n\nb\n", "a\r\nb\r\n", "a\r", "\r\n\r\n", "a\n\r\nb", "\r\r\n"];
    for sample in samples {
        let expected: String = sample
            .lines()
            .map(|line| if line.is_empty() { String::from("\n") } else { format!("  {}\n", line) })
            .collect();
        assert_eq!(indented_lines(sample), expected, "for {:?}", sample);
    }
}

#[test]
fn chars_of_gives_the_characters_in_order() {
    assert_eq!(chars_of("aé✓"), vec!['a', 'é', '✓']);
    assert_eq!(chars_of(""), Vec::<char>::new());
}

#[test]
fn push_chars_appends_the_range() {
    let chars = chars_of("hello");
    let mut s = String::from("> ");
    push_chars(&mut s, &chars, 1, 4);
    assert_eq!(s, "> ell");
    push_chars(&mut s, &chars, 2, 2);
    assert_eq!(s, "> ell");
}

#[test]
fn find_line_feed_stops_at_the_first_one() {
    let chars = chars_of("ab\ncd\n");
    assert_eq!(find_line_feed(&chars, 0), 2);
    assert_eq!(find_line_feed(&chars, 2), 2);
    assert_eq!(find_line_feed(&chars, 3), 5);
    assert_eq!(find_line_feed(&chars, 6), 6);
    assert_eq!(find_line_feed(&chars_of("abc"), 1), 3);
}

#[test]
fn same_text_compares_characters() {
    assert!(same_text("main.rs.stub", "main.rs.stub"));
    assert!(same_text("", ""));
    assert!(!same_text("main.rs.stub", "main.rs.stug"));
    assert!(!same_text("a", "ab"));
    assert!(!same_text("ab", "a"));
}
