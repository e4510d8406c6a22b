use searchhelp::text::{
    append_chars, chars_of, join_strings, split_and_trim, string_of, string_of_range, trim_bounds,
};

fn chars(s: &str) -> Vec<char> {
    s.chars().collect()
}

fn strings(items: &[&str]) -> Vec<String> {
    items.iter().map(|s| s.to_string()).collect()
}

#[test]
fn chars_of_gives_every_character() {
    assert_eq!(chars_of("a→b"), vec!['a', '→', 'b']);
    assert_eq!(chars_of(""), Vec::<char>::new());
}

#[test]
fn string_of_puts_the_characters_back() {
    assert_eq!(string_of(&chars("df -h")), "df -h");
    assert_eq!(string_of(&Vec::new()), "");
    assert_eq!(string_of_range(&chars("echo hi"), 5, 7), "hi");
    assert_eq!(string_of_range(&chars("echo hi"), 3, 3), "");
}

#[test]
fn append_chars_adds_at_the_end() {
    let mut buffer = chars("Name: ");
    append_chars(&mut buffer, "→ ");
    assert_eq!(string_of(&buffer), "Name: → ");
}

#[test]
fn trim_bounds_cuts_whitespace_on_both_sides() {
    let buffer = chars("x;\t echo hi \n;y");
    assert_eq!(trim_bounds(&buffer, 2, 13), (4, 11));
    assert_eq!(trim_bounds(&buffer, 0, 1), (0, 1));
}

#[test]
fn trim_bounds_of_blank_text_is_empty() {
    let buffer = chars("a   b");
    let (from, to) = trim_bounds(&buffer, 1, 4);
    assert_eq!(from, to);
    let (from, to) = trim_bounds(&buffer, 2, 2);
    assert_eq!((from, to), (2, 2));
}

#[test]
fn trim_knows_whitespace_beyond_the_plain_space() {
    assert_eq!(split_and_trim(&chars("\u{a0}ls\u{2003}"), ';'), strings(&["ls"]));
    assert_eq!(split_and_trim(&chars("\r\n\tls -la\n"), ';'), strings(&["ls -la"]));
}

#[test]
fn split_and_trim_gives_the_segments_in_order() {
    assert_eq!(
        split_and_trim(&chars("ls -la; echo hi ;  df -h"), ';'),
        strings(&["ls -la", "echo hi", "df -h"])
    );
}

#[test]
fn split_and_trim_keeps_empty_segments() {
    assert_eq!(split_and_trim(&chars(""), ';'), strings(&[""]));
    assert_eq!(split_and_trim(&chars(";"), ';'), strings(&["", ""]));
    assert_eq!(split_and_trim(&chars("a;;b; "), ';'), strings(&["a", "", "b", ""]));
}

#[test]
fn split_and_trim_agrees_with_the_standard_library() {
    for text in ["", " ", "a", "a;b", " a ; b ;c", ";;", "x y ; z;", "\ta\n;\u{a0}b"] {
        let expected: Vec<String> = text.split(';').map(|s| s.trim().to_string()).collect();
        assert_eq!(split_and_trim(&chars(text), ';'), expected);
    }
}

#[test]
fn join_strings_puts_the_separator_between_neighbours() {
    assert_eq!(string_of(&join_strings(&strings(&["ls", "df -h", "id"]), "; ")), "ls; df -h; id");
    assert_eq!(string_of(&join_strings(&strings(&["ls"]), "; ")), "ls");
    assert_eq!(string_of(&join_strings(&strings(&[]), "; ")), "");
    assert_eq!(string_of(&join_strings(&strings(&["", ""]), ";")), ";");
}

#[test]
fn joining_then_splitting_gives_the_commands_back() {
    let commands = strings(&["ls -la", "echo hi", "", "df -h"]);
    let line = join_strings(&commands, "; ");
    assert_eq!(split_and_trim(&line, ';'), commands);
}

#[test]
fn joining_then_splitting_trims_what_was_not_trimmed() {
    let commands = strings(&[" ls", "df "]);
    let line = join_strings(&commands, "; ");
    assert_eq!(split_and_trim(&line, ';'), strings(&["ls", "df"]));
}

#[test]
fn joining_nothing_then_splitting_gives_one_empty_command() {
    let line = join_strings(&Vec::new(), "; ");
    assert_eq!(split_and_trim(&line, ';'), strings(&[""]));
}
