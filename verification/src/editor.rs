//! The field editor: a cursor over the two text fields of a program, moved and
//! fed by key presses until the edit is confirmed or cancelled.

use crate::boundary::{boundary, find_boundary, lemma_boundary_stays_inside, Direction};
use crate::db::program::{commands_in, display_separator, Program, ProgramView};
use crate::key::{Key, KeyCode};
use crate::text::{append_chars, chars_of, join_with, split_and_trim, string_of};
use vstd::prelude::*;

verus! {

/// The fields that can be edited.
#[derive(Clone, Copy, Debug, PartialEq, Eq, Structural)]
pub enum EditField {
    Name,
    Commands,
}

/// What a key press means for the edit as a whole.
#[derive(Clone, Copy, Debug, PartialEq, Eq, Structural)]
pub enum EditSignal {
    /// The edit goes on.
    Continue,
    /// The user accepted the buffers.
    Confirm,
    /// The user gave the edit up.
    Cancel,
}

/// The editor's state: the two buffers, the focused field and the cursor's
/// offset in the focused buffer, counted in characters.
pub struct Editor {
    field: EditField,
    offset: usize,
    name: Vec<char>,
    commands: Vec<char>,
}

/// The editor's state as plain values.
pub struct EditorView {
    pub field: EditField,
    pub offset: nat,
    pub name: Seq<char>,
    pub commands: Seq<char>,
}

impl EditField {
    /// The field that Tab leads to from this one.
    pub open spec fn other(self) -> EditField {
        match self {
            EditField::Name => EditField::Commands,
            EditField::Commands => EditField::Name,
        }
    }

    /// The character at which a word skip stops in this field: a space in the
    /// name, the command separator in the commands.
    pub open spec fn delimiter(self) -> char {
        match self {
            EditField::Name => ' ',
            EditField::Commands => ';',
        }
    }

    /// The screen row on which the field is shown.
    pub open spec fn row(self) -> nat {
        match self {
            EditField::Name => 1,
            EditField::Commands => 2,
        }
    }

    /// The screen column at which the field's text begins.
    pub open spec fn column_offset(self) -> nat {
        match self {
            EditField::Name => 8,
            EditField::Commands => 13,
        }
    }

    /// The label in front of the field.
    pub open spec fn label(self) -> Seq<char> {
        match self {
            EditField::Name => "Name: "@,
            EditField::Commands => "Help Text: "@,
        }
    }
}

impl EditField {
    /// The label in front of the field.
    pub fn label_text(self) -> (label: &'static str)
        ensures
            label@ == self.label(),
    {
        match self {
            EditField::Name => "Name: ",
            EditField::Commands => "Help Text: ",
        }
    }

    /// The character at which a word skip stops in this field.
    pub fn word_delimiter(self) -> (delimiter: char)
        ensures
            delimiter == self.delimiter(),
    {
        match self {
            EditField::Name => ' ',
            EditField::Commands => ';',
        }
    }

    /// The field that Tab leads to from this one.
    pub fn next(self) -> (field: EditField)
        ensures
            field == self.other(),
    {
        match self {
            EditField::Name => EditField::Commands,
            EditField::Commands => EditField::Name,
        }
    }

    /// The screen row on which the field is shown.
    pub fn screen_row(self) -> (row: u16)
        ensures
            row == self.row(),
    {
        match self {
            EditField::Name => 1,
            EditField::Commands => 2,
        }
    }

    /// The screen column at which the field's text begins.
    pub fn text_column(self) -> (column: u16)
        ensures
            column == self.column_offset(),
    {
        match self {
            EditField::Name => 8,
            EditField::Commands => 13,
        }
    }
}

/// The mark between a field's label and its text: an arrow on the focused
/// field, blanks of the same width on the other.
pub open spec fn marker(focused: bool) -> Seq<char> {
    if focused {
        "→ "@
    } else {
        "  "@
    }
}

impl EditorView {
    /// The buffer of the focused field.
    pub open spec fn buffer(self) -> Seq<char> {
        match self.field {
            EditField::Name => self.name,
            EditField::Commands => self.commands,
        }
    }

    /// The buffer of `field`.
    pub open spec fn buffer_of(self, field: EditField) -> Seq<char> {
        match field {
            EditField::Name => self.name,
            EditField::Commands => self.commands,
        }
    }

    /// The cursor is inside the focused buffer or at its end.
    pub open spec fn well_formed(self) -> bool {
        self.offset <= self.buffer().len()
    }

    /// The line that shows `field`: its label, the mark that tells whether it
    /// is focused, and its buffer.
    pub open spec fn line(self, field: EditField) -> Seq<char> {
        field.label() + marker(field == self.field) + self.buffer_of(field)
    }

    /// This state with the focused buffer replaced and the cursor moved.
    pub open spec fn edited(self, buffer: Seq<char>, offset: nat) -> EditorView {
        match self.field {
            EditField::Name => EditorView { name: buffer, offset, ..self },
            EditField::Commands => EditorView { commands: buffer, offset, ..self },
        }
    }

    /// This state with the cursor moved.
    pub open spec fn moved(self, offset: nat) -> EditorView {
        EditorView { offset, ..self }
    }

    /// This state with the focus on the other field and the cursor at the end
    /// of that field's buffer.
    pub open spec fn switched(self) -> EditorView {
        let field = self.field.other();
        EditorView { field, offset: self.buffer_of(field).len(), ..self }
    }
}

/// Whether `key` is one of the interrupt combinations: Control alone with `c`
/// or with `x`.
pub open spec fn is_interrupt(key: Key) -> bool {
    key.modifiers.only_control() && (key.code == KeyCode::Char('c') || key.code == KeyCode::Char(
        'x',
    ))
}

/// What `key` means for the edit: Esc and the interrupt combinations cancel,
/// Enter confirms, every other key lets the edit go on.
pub open spec fn signal_of(key: Key) -> EditSignal {
    if key.code == KeyCode::Esc || is_interrupt(key) {
        EditSignal::Cancel
    } else if key.code == KeyCode::Enter {
        EditSignal::Confirm
    } else {
        EditSignal::Continue
    }
}

/// The state that `key` leads to from `state`.
pub open spec fn after_key(state: EditorView, key: Key) -> EditorView {
    let buffer = state.buffer();
    let offset = state.offset;
    if signal_of(key) != EditSignal::Continue {
        state
    } else {
        match key.code {
            KeyCode::Tab => state.switched(),
            KeyCode::Char(c) => state.edited(buffer.insert(offset as int, c), offset + 1),
            KeyCode::Backspace => if offset > 0 {
                state.edited(buffer.remove(offset - 1), (offset - 1) as nat)
            } else {
                state
            },
            KeyCode::Delete => if offset < buffer.len() {
                state.edited(buffer.remove(offset as int), offset)
            } else {
                state
            },
            KeyCode::Left => if key.modifiers.only_control() {
                state.moved(
                    boundary(buffer, offset as int, Direction::Left, state.field.delimiter()) as nat,
                )
            } else if offset > 0 {
                state.moved((offset - 1) as nat)
            } else {
                state
            },
            KeyCode::Right => if key.modifiers.only_control() {
                state.moved(
                    boundary(buffer, offset as int, Direction::Right, state.field.delimiter()) as nat,
                )
            } else if offset < buffer.len() {
                state.moved(offset + 1)
            } else {
                state
            },
            _ => state,
        }
    }
}

/// The state in which an edit of `program` begins: the focus on the name, the
/// cursor at its end, the commands in one line with "; " between them.
pub open spec fn opened(program: ProgramView) -> EditorView {
    EditorView {
        field: EditField::Name,
        offset: program.name.len(),
        name: program.name,
        commands: join_with(program.commands, display_separator()),
    }
}

/// The program that confirming the buffers of `state` makes of `program`: the
/// name buffer as it is, the commands read out of the commands buffer.
pub open spec fn committed(program: ProgramView, state: EditorView) -> ProgramView {
    ProgramView { name: state.name, commands: commands_in(state.commands), ..program }
}

/// Where a run of key presses leaves the edit: the keys are applied in order
/// up to the first that confirms or cancels, and the keys after that one are
/// not looked at. The signal is `Continue` where no key of the run ends the
/// edit.
pub open spec fn after_keys(state: EditorView, keys: Seq<Key>) -> (EditorView, EditSignal)
    decreases keys.len(),
{
    if keys.len() == 0 {
        (state, EditSignal::Continue)
    } else if signal_of(keys[0]) != EditSignal::Continue {
        (state, signal_of(keys[0]))
    } else {
        after_keys(after_key(state, keys[0]), keys.skip(1))
    }
}

impl View for Editor {
    type V = EditorView;

    closed spec fn view(&self) -> EditorView {
        EditorView {
            field: self.field,
            offset: self.offset as nat,
            name: self.name@,
            commands: self.commands@,
        }
    }
}

impl Editor {
    #[verifier::type_invariant]
    spec fn cursor_in_buffer(&self) -> bool {
        self@.well_formed()
    }

    /// Begins an edit of `program` on a copy of its fields.
    pub fn open(program: &Program) -> (editor: Editor)
        ensures
            editor@ == opened(program@),
    {
        let name = chars_of(program.name.as_str());
        let commands = program.display_commands();
        Editor { field: EditField::Name, offset: name.len(), name, commands }
    }

    /// The focused field.
    pub fn field(&self) -> (field: EditField)
        ensures
            field == self@.field,
    {
        self.field
    }

    /// The cursor's offset in the focused buffer.
    pub fn offset(&self) -> (offset: usize)
        ensures
            offset == self@.offset,
            self@.well_formed(),
    {
        proof {
            use_type_invariant(self);
        }
        self.offset
    }

    /// The name buffer.
    pub fn name(&self) -> (name: String)
        ensures
            name@ == self@.name,
    {
        string_of(&self.name)
    }

    /// The commands buffer.
    pub fn commands(&self) -> (commands: String)
        ensures
            commands@ == self@.commands,
    {
        string_of(&self.commands)
    }

    /// Applies one key press and says what it means for the edit.
    pub fn handle_key(&mut self, key: Key) -> (signal: EditSignal)
        ensures
            final(self)@ == after_key(old(self)@, key),
            final(self)@.well_formed(),
            signal == signal_of(key),
    {
        let mut current = Editor {
            field: EditField::Name,
            offset: 0,
            name: Vec::new(),
            commands: Vec::new(),
        };
        std::mem::swap(self, &mut current);
        let (next, signal) = current.step(key);
        *self = next;
        signal
    }

    /// The state after one key press, and what the key means for the edit.
    fn step(self, key: Key) -> (next: (Editor, EditSignal))
        ensures
            next.0@ == after_key(self@, key),
            next.0@.well_formed(),
            next.1 == signal_of(key),
    {
        proof {
            use_type_invariant(&self);
        }
        let only_control = key.modifiers.is_only_control();
        let Editor { field, offset, name, commands } = self;
        let (mut buffer, other) = match field {
            EditField::Name => (name, commands),
            EditField::Commands => (commands, name),
        };
        let delimiter = field.word_delimiter();
        let mut field = field;
        let mut offset = offset;
        let mut other = other;
        let mut signal = EditSignal::Continue;
        match key.code {
            KeyCode::Esc => {
                signal = EditSignal::Cancel;
            },
            KeyCode::Enter => {
                signal = EditSignal::Confirm;
            },
            KeyCode::Tab => {
                let focused = buffer;
                buffer = other;
                other = focused;
                field = field.next();
                offset = buffer.len();
            },
            KeyCode::Char(c) => {
                if only_control && (c == 'c' || c == 'x') {
                    signal = EditSignal::Cancel;
                } else {
                    buffer.insert(offset, c);
                    assert(offset < buffer.len());
                    offset = offset + 1;
                }
            },
            KeyCode::Backspace => {
                if offset > 0 {
                    offset = offset - 1;
                    buffer.remove(offset);
                }
            },
            KeyCode::Delete => {
                if offset < buffer.len() {
                    buffer.remove(offset);
                }
            },
            KeyCode::Left => {
                if only_control {
                    offset = find_boundary(&buffer, offset, Direction::Left, delimiter);
                } else if offset > 0 {
                    offset = offset - 1;
                }
            },
            KeyCode::Right => {
                if only_control {
                    offset = find_boundary(&buffer, offset, Direction::Right, delimiter);
                } else if offset < buffer.len() {
                    offset = offset + 1;
                }
            },
            _ => {},
        }
        let next = match field {
            EditField::Name => Editor { field, offset, name: buffer, commands: other },
            EditField::Commands => Editor { field, offset, name: other, commands: buffer },
        };
        (next, signal)
    }

    /// Writes the buffers into `program`: the name as it stands, the commands
    /// read out of the commands buffer.
    pub fn commit(&self, program: &mut Program)
        ensures
            final(program)@ == committed(old(program)@, self@),
    {
        program.name = string_of(&self.name);
        program.commands = split_and_trim(&self.commands, ';');
    }

    /// The heading of the editor's screen.
    pub fn title() -> (title: &'static str)
        ensures
            title@ == "Edit Program"@,
    {
        "Edit Program"
    }

    /// The line that shows `field`.
    pub fn line(&self, field: EditField) -> (line: String)
        ensures
            line@ == self@.line(field),
    {
        let focused = match (field, self.field) {
            (EditField::Name, EditField::Name) => true,
            (EditField::Commands, EditField::Commands) => true,
            _ => false,
        };
        let mut line: Vec<char> = Vec::new();
        append_chars(&mut line, field.label_text());
        if focused {
            append_chars(&mut line, "→ ");
        } else {
            append_chars(&mut line, "  ");
        }
        match field {
            EditField::Name => {
                let mut text = self.name.clone();
                line.append(&mut text);
            },
            EditField::Commands => {
                let mut text = self.commands.clone();
                line.append(&mut text);
            },
        }
        string_of(&line)
    }

    /// The screen position of the cursor as column and row, or `None` where
    /// the column is beyond what a screen position can hold.
    pub fn cursor_position(&self) -> (position: Option<(u16, u16)>)
        ensures
            match position {
                Some((column, row)) => column == self@.field.column_offset() + self@.offset && row
                    == self@.field.row(),
                None => self@.field.column_offset() + self@.offset > u16::MAX,
            },
    {
        let base = self.field.text_column();
        if self.offset <= (u16::MAX - base) as usize {
            Some((base + self.offset as u16, self.field.screen_row()))
        } else {
            None
        }
    }
}

/// Runs an edit of `program` over the given key presses. The keys are applied
/// in order up to the first that ends the edit. On a confirming key the
/// buffers are written into `program` and the result is `Some(true)`. On a
/// cancelling key the result is `Some(false)`, and where the keys run out
/// before the edit has ended it is `None`; in both cases `program` is left as
/// it was.
pub fn edit_program(program: &mut Program, keys: &Vec<Key>) -> (confirmed: Option<bool>)
    ensures
        ({
            let (state, signal) = after_keys(opened(old(program)@), keys@);
            match signal {
                EditSignal::Confirm => confirmed == Some(true) && final(program)@ == committed(
                    old(program)@,
                    state,
                ),
                EditSignal::Cancel => confirmed == Some(false) && *final(program) == *old(program),
                EditSignal::Continue => confirmed.is_none() && *final(program) == *old(program),
            }
        }),
{
    let mut editor = Editor::open(program);
    let mut i: usize = 0;
    assert(keys@.skip(0) == keys@);
    while i < keys.len()
        invariant
            i <= keys.len(),
            *program == *old(program),
            after_keys(opened(old(program)@), keys@) == after_keys(editor@, keys@.skip(i as int)),
        decreases keys.len() - i,
    {
        let ghost rest = keys@.skip(i as int);
        assert(rest.skip(1) == keys@.skip(i as int + 1));
        match editor.handle_key(keys[i]) {
            EditSignal::Confirm => {
                editor.commit(program);
                return Some(true);
            },
            EditSignal::Cancel => {
                return Some(false);
            },
            EditSignal::Continue => {},
        }
        i += 1;
    }
    None
}

/// A key press leaves the cursor inside the focused buffer or at its end.
pub proof fn lemma_key_keeps_cursor_in_buffer(state: EditorView, key: Key)
    requires
        state.well_formed(),
    ensures
        after_key(state, key).well_formed(),
{
    let delimiter = state.field.delimiter();
    lemma_boundary_stays_inside(state.buffer(), state.offset as int, Direction::Left, delimiter);
    lemma_boundary_stays_inside(state.buffer(), state.offset as int, Direction::Right, delimiter);
}

/// However many keys are applied, the cursor stays inside the focused buffer
/// or at its end.
pub proof fn lemma_keys_keep_cursor_in_buffer(state: EditorView, keys: Seq<Key>)
    requires
        state.well_formed(),
    ensures
        after_keys(state, keys).0.well_formed(),
    decreases keys.len(),
{
    if keys.len() > 0 && signal_of(keys[0]) == EditSignal::Continue {
        lemma_key_keeps_cursor_in_buffer(state, keys[0]);
        lemma_keys_keep_cursor_in_buffer(after_key(state, keys[0]), keys.skip(1));
    }
}

/// In the line that shows a field, the field's text begins at the field's
/// text column: the column of the cursor is the place of the character at the
/// cursor's offset.
pub proof fn lemma_text_begins_at_column(state: EditorView, field: EditField)
    ensures
        state.line(field).len() == field.column_offset() + state.buffer_of(field).len(),
        state.line(field).skip(field.column_offset() as int) == state.buffer_of(field),
{
    reveal_strlit("Name: ");
    reveal_strlit("Help Text: ");
    reveal_strlit("→ ");
    reveal_strlit("  ");
}

} // verus!
