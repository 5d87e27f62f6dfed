use ccm::lcs::compute_lcs;
use ccm::text::{join, split_whitespace, trim};
use ccm::word_diff::{
    compute_word_diff, find_paired_addition, find_paired_deletion, find_syntax_style_for_range,
    tint_color, Color, DiffToken, LineType,
};

fn same(s: &str) -> DiffToken {
    DiffToken::Same(s.to_string())
}
fn changed(s: &str) -> DiffToken {
    DiffToken::Changed(s.to_string())
}

#[test]
fn lcs_of_words() {
    assert_eq!(compute_lcs(&["a", "b", "c", "d"], &["b", "d", "x"]), vec!["b", "d"]);
    assert_eq!(compute_lcs(&["x", "y"], &["z"]), Vec::<&str>::new());
    assert_eq!(compute_lcs(&[], &["z"]), Vec::<&str>::new());
    let r = compute_lcs(&["a", "b", "a"], &["b", "a", "b"]);
    assert_eq!(r.len(), 2);
}

#[test]
fn word_diff_marks_changed_words() {
    assert_eq!(
        compute_word_diff("let x = 1;", "let y = 1;"),
        vec![same("let"), changed("y"), same("="), same("1;")]
    );
    assert_eq!(
        compute_word_diff("a b c", "  c a  b "),
        vec![changed("c"), same("a"), same("b")]
    );
}

#[test]
fn word_diff_with_an_empty_side() {
    assert_eq!(compute_word_diff("   ", "new line"), vec![changed("new line")]);
    assert_eq!(compute_word_diff("old", ""), vec![changed("")]);
}

#[test]
fn whitespace_helpers() {
    assert_eq!(split_whitespace(" a\tb\u{3000}c  "), vec!["a", "b", "c"]);
    assert_eq!(trim("\u{a0} x y \n"), "x y");
    assert_eq!(join(&["a".to_string(), "b".to_string()], ", "), "a, b");
}

#[test]
fn pairing_of_diff_lines() {
    let lines = [
        LineType::Context,
        LineType::Deletion,
        LineType::Deletion,
        LineType::Addition,
        LineType::Addition,
        LineType::Context,
    ];
    assert_eq!(find_paired_deletion(&lines, 4), Some(2));
    assert_eq!(find_paired_deletion(&lines, 1), None);
    assert_eq!(find_paired_addition(&lines, 1), Some(3));
    assert_eq!(find_paired_addition(&lines, 4), None);
    assert_eq!(find_paired_addition(&lines, 9), None);
}

#[test]
fn tinting() {
    assert_eq!(tint_color(Color::Rgb(10, 240, 100), true), Color::Rgb(0, 255, 80));
    assert_eq!(tint_color(Color::Rgb(250, 10, 30), false), Color::Rgb(255, 0, 10));
    assert_eq!(tint_color(Color::Blue, true), Color::Green);
    assert_eq!(tint_color(Color::Indexed(3), false), Color::Red);
}

#[test]
fn style_lookup_by_byte_offset() {
    let spans = [('a', 3usize), ('b', 0), ('c', 2)];
    assert_eq!(find_syntax_style_for_range(&spans, 0, 1), Some('a'));
    assert_eq!(find_syntax_style_for_range(&spans, 3, 4), Some('c'));
    assert_eq!(find_syntax_style_for_range(&spans, 5, 6), None);
}
