use text_fusion::{
    count_different_lines, has_first_line_content, is_blank_line, line_marked,
    LineComparerHighlighter, LineMark,
};

fn marked_lines(h: &mut LineComparerHighlighter, lines: &[&str]) -> Vec<bool> {
    let mut marked = Vec::new();
    for line in lines {
        marked.push(!h.highlight_line(line).is_empty());
    }
    marked
}

#[test]
fn both_empty_count_nothing() {
    assert_eq!(count_different_lines("", ""), 0);
}

#[test]
fn blank_left_is_never_counted() {
    assert_eq!(count_different_lines("", "abc"), 0);
    assert_eq!(count_different_lines("  \t", "abc"), 0);
    assert_eq!(count_different_lines("a\n \nc", "a\nb\nc"), 0);
}

#[test]
fn missing_right_line_counts_a_non_blank_left_line() {
    assert_eq!(count_different_lines("abc", ""), 1);
}

#[test]
fn only_the_middle_line_differs() {
    assert_eq!(count_different_lines("a\nb\nc", "a\nX\nc"), 1);
}

#[test]
fn extra_right_lines_are_not_counted() {
    assert_eq!(count_different_lines("a\nb", "a\nb\nc"), 0);
}

#[test]
fn identical_texts_have_no_differences() {
    for text in ["", "a", "a\nb\nc", "x\n\n  y\r\nz\n", "\u{3000}\u{a0}"] {
        assert_eq!(count_different_lines(text, text), 0);
    }
}

#[test]
fn every_differing_line_is_counted() {
    assert_eq!(count_different_lines("a\nb\nc\nd", "x\nb\ny"), 3);
    assert_eq!(count_different_lines("a\nb\nc", ""), 3);
}

#[test]
fn line_endings_are_not_part_of_lines() {
    assert_eq!(count_different_lines("a\r\nb\r\n", "a\nb"), 0);
    assert_eq!(count_different_lines("a\n", "a"), 0);
    assert_eq!(count_different_lines("a\rb", "a"), 1);
    assert_eq!(count_different_lines("a\r", "a"), 1);
    assert_eq!(count_different_lines("\nb", "x\nb"), 0);
}

#[test]
fn surrounding_whitespace_still_makes_a_difference() {
    assert_eq!(count_different_lines(" a", "a"), 1);
}

#[test]
fn blank_means_unicode_whitespace_only() {
    assert!(is_blank_line(""));
    assert!(is_blank_line(" \t\u{b}\u{c}\u{85}\u{a0}\u{2003}\u{3000}"));
    assert!(!is_blank_line(" x "));
    assert!(!is_blank_line("\u{200b}"));
}

#[test]
fn first_line_content() {
    assert!(!has_first_line_content(""));
    assert!(!has_first_line_content("   \nabc"));
    assert!(has_first_line_content(" a \n"));
}

#[test]
fn a_single_line_is_classified_by_its_reference() {
    assert!(line_marked("a", Some("b")));
    assert!(!line_marked("a", Some("a")));
    assert!(line_marked("a", None));
    assert!(!line_marked("  ", None));
    assert!(!line_marked("", Some("b")));
}

#[test]
fn highlighter_marks_only_the_differing_line() {
    let mut h = LineComparerHighlighter::new(&"a\nX\nc".to_string());
    assert_eq!(h.current_line(), 0);
    assert!(h.highlight_line("a").is_empty());
    let second = h.highlight_line("b");
    assert_eq!(second.len(), 1);
    assert_eq!(second[0].0, 0..1);
    assert_eq!(second[0].1, LineMark::Different);
    assert!(h.highlight_line("c").is_empty());
    assert_eq!(h.current_line(), 3);
}

#[test]
fn highlight_spans_all_bytes_of_the_line() {
    let mut h = LineComparerHighlighter::new(&String::new());
    let highlights = h.highlight_line("h\u{e9}llo");
    assert_eq!(highlights.len(), 1);
    assert_eq!(highlights[0].0, 0..6);
}

#[test]
fn highlighter_past_the_reference_marks_non_blank_lines() {
    let mut h = LineComparerHighlighter::new(&"a".to_string());
    assert_eq!(marked_lines(&mut h, &["a", "b", " ", ""]), vec![false, true, false, false]);
}

#[test]
fn restarting_a_pass_repeats_its_marks() {
    let lines = ["a", "b", "c", "d"];
    let mut h = LineComparerHighlighter::new(&"a\nX\nc".to_string());
    let first = marked_lines(&mut h, &lines);
    let mut partial = LineComparerHighlighter::new(&"a\nX\nc".to_string());
    marked_lines(&mut partial, &lines[..2]);
    partial.change_line(0);
    assert_eq!(partial.current_line(), 0);
    assert_eq!(marked_lines(&mut partial, &lines), first);
    assert_eq!(first, vec![false, true, false, true]);
}

#[test]
fn change_line_resumes_at_that_line() {
    let mut h = LineComparerHighlighter::new(&"a\nb\nc".to_string());
    h.change_line(2);
    assert!(h.highlight_line("c").is_empty());
    h.change_line(1);
    assert!(!h.highlight_line("c").is_empty());
}

#[test]
fn update_replaces_the_reference_and_keeps_the_cursor() {
    let mut h = LineComparerHighlighter::new(&"a\nb".to_string());
    assert!(h.highlight_line("a").is_empty());
    h.update(&"a\nc".to_string());
    assert_eq!(h.current_line(), 1);
    assert_eq!(h.right_text, "a\nc");
    assert!(!h.highlight_line("b").is_empty());
}

#[test]
fn count_agrees_with_the_highlighter() {
    let cases = [
        ("", ""),
        ("a\nb\nc", "a\nX\nc"),
        ("a\n\nb\n  \nz", "a\nq\nb"),
        ("x\r\ny\n", "x\nz\nw\nv"),
        ("abc", ""),
        ("", "abc"),
    ];
    for (left, right) in cases {
        let mut h = LineComparerHighlighter::new(&right.to_string());
        let lines: Vec<&str> = left.lines().collect();
        let marked = marked_lines(&mut h, &lines).into_iter().filter(|m| *m).count();
        assert_eq!(count_different_lines(left, right), marked);
    }
}
