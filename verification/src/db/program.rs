//! The program record: a named list of commands with the help text they
//! produced, and the two text forms of the command list.

use crate::text::{chars_of, join_strings, join_with, split_and_trim, split_trimmed, string_of};
use vstd::prelude::*;

verus! {

/// A stored program. `id` is `None` until the store has given the record one.
#[derive(Debug)]
pub struct Program {
    pub id: Option<i32>,
    pub name: String,
    pub commands: Vec<String>,
    pub help_text: String,
}

/// A program as plain values.
pub struct ProgramView {
    pub id: Option<i32>,
    pub name: Seq<char>,
    pub commands: Seq<Seq<char>>,
    pub help_text: Seq<char>,
}

impl View for Program {
    type V = ProgramView;

    open spec fn view(&self) -> ProgramView {
        ProgramView {
            id: self.id,
            name: self.name@,
            commands: self.commands.deep_view(),
            help_text: self.help_text@,
        }
    }
}

/// The character that separates commands in a line of text.
pub open spec fn command_delimiter() -> char {
    ';'
}

/// What stands between two commands when they are shown for editing.
pub open spec fn display_separator() -> Seq<char> {
    seq![';', ' ']
}

/// What stands between two commands when they are stored.
pub open spec fn storage_separator() -> Seq<char> {
    seq![';']
}

/// The commands that a line of text holds: its segments between ';', each
/// trimmed.
pub open spec fn commands_in(line: Seq<char>) -> Seq<Seq<char>> {
    split_trimmed(line, command_delimiter())
}

/// Reads the commands out of a line of text. A segment with nothing in it
/// gives an empty command.
pub fn parse_commands(line: &str) -> (commands: Vec<String>)
    ensures
        commands.deep_view() == commands_in(line@),
{
    let buffer = chars_of(line);
    split_and_trim(&buffer, ';')
}

/// The position of the first program called `name`, if there is one.
pub fn find_by_name(programs: &Vec<Program>, name: &str) -> (found: Option<usize>)
    ensures
        match found {
            Some(at) => at < programs.len() && programs[at as int].name@ == name@ && forall|j: int|
                0 <= j < at ==> programs[j].name@ != name@,
            None => forall|j: int| 0 <= j < programs.len() ==> programs[j].name@ != name@,
        },
{
    let wanted = name.to_owned();
    let mut i: usize = 0;
    while i < programs.len()
        invariant
            i <= programs.len(),
            wanted@ == name@,
            forall|j: int| 0 <= j < i ==> programs[j].name@ != name@,
        decreases programs.len() - i,
    {
        if programs[i].name == wanted {
            return Some(i);
        }
        i += 1;
    }
    None
}

impl Program {
    /// A new program that the store has not seen yet.
    pub fn new(name: &str, help_command: Vec<String>, help_text: &str) -> (program: Program)
        ensures
            program@ == (ProgramView {
                id: None,
                name: name@,
                commands: help_command.deep_view(),
                help_text: help_text@,
            }),
    {
        Program {
            id: None,
            name: name.to_owned(),
            commands: help_command,
            help_text: help_text.to_owned(),
        }
    }

    /// The program that a stored row stands for. The row keeps the commands in
    /// one column, separated by ';'.
    pub fn from_row(id: Option<i32>, name: String, help_command: &str, help_text: String) -> (program:
        Program)
        ensures
            program@ == (ProgramView {
                id,
                name: name@,
                commands: commands_in(help_command@),
                help_text: help_text@,
            }),
    {
        Program { id, name, commands: parse_commands(help_command), help_text }
    }

    /// The commands as one line for editing, with "; " between them.
    pub fn display_commands(&self) -> (line: Vec<char>)
        ensures
            line@ == join_with(self@.commands, display_separator()),
    {
        proof {
            reveal_strlit("; ");
            assert("; "@ == display_separator());
        }
        join_strings(&self.commands, "; ")
    }

    /// The commands as the store keeps them, with ";" between them.
    pub fn stored_commands(&self) -> (column: String)
        ensures
            column@ == join_with(self@.commands, storage_separator()),
    {
        proof {
            reveal_strlit(";");
            assert(";"@ == storage_separator());
        }
        let line = join_strings(&self.commands, ";");
        string_of(&line)
    }
}

} // verus!
