use searchhelp::db::program::{find_by_name, parse_commands, Program};
use searchhelp::text::string_of;

fn strings(items: &[&str]) -> Vec<String> {
    items.iter().map(|s| s.to_string()).collect()
}

#[test]
fn new_program_has_no_id() {
    let program = Program::new("top", strings(&["top -h", "man top"]), "usage");
    assert_eq!(program.id, None);
    assert_eq!(program.name, "top");
    assert_eq!(program.commands, strings(&["top -h", "man top"]));
    assert_eq!(program.help_text, "usage");
}

#[test]
fn commands_are_read_out_of_a_line() {
    assert_eq!(parse_commands("ls -la; echo hi ;  df -h"), strings(&["ls -la", "echo hi", "df -h"]));
    assert_eq!(parse_commands("top -h"), strings(&["top -h"]));
    assert_eq!(parse_commands(""), strings(&[""]));
    assert_eq!(parse_commands("a;;b"), strings(&["a", "", "b"]));
}

#[test]
fn a_row_becomes_a_program() {
    let program = Program::from_row(Some(4), "top".to_string(), "top -h;man top", "usage".to_string());
    assert_eq!(program.id, Some(4));
    assert_eq!(program.name, "top");
    assert_eq!(program.commands, strings(&["top -h", "man top"]));
    assert_eq!(program.help_text, "usage");
}

#[test]
fn commands_are_shown_and_stored_in_one_line() {
    let program = Program::new("top", strings(&["top -h", "man top", "id"]), "");
    assert_eq!(string_of(&program.display_commands()), "top -h; man top; id");
    assert_eq!(program.stored_commands(), "top -h;man top;id");
    let none = Program::new("none", Vec::new(), "");
    assert_eq!(string_of(&none.display_commands()), "");
    assert_eq!(none.stored_commands(), "");
}

#[test]
fn stored_commands_come_back_from_the_row() {
    let program = Program::new("top", strings(&["top -h", "man top"]), "usage");
    let back = Program::from_row(Some(1), "top".to_string(), &program.stored_commands(), String::new());
    assert_eq!(back.commands, program.commands);
}

#[test]
fn find_by_name_gives_the_first_match() {
    let programs = vec![
        Program::new("ls", Vec::new(), ""),
        Program::new("top", strings(&["a"]), ""),
        Program::new("top", strings(&["b"]), ""),
    ];
    assert_eq!(find_by_name(&programs, "top"), Some(1));
    assert_eq!(find_by_name(&programs, "ls"), Some(0));
    assert_eq!(find_by_name(&programs, "to"), None);
    assert_eq!(find_by_name(&Vec::new(), "top"), None);
}
