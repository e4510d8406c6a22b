//! The selection list: a column of entries, one of them selected, moved
//! through by key presses until an entry's action or the user closes it.

pub mod list_item;
pub mod list_settings;

use crate::key::{Key, KeyCode};
use crate::list::list_item::ListItem;
use vstd::prelude::*;

verus! {

/// What a key press asks of the list.
#[derive(Clone, Copy, Debug, PartialEq, Eq, Structural)]
pub enum ListCommand {
    /// Select the entry above.
    Up,
    /// Select the entry below.
    Down,
    /// Run the action of the selected entry.
    Activate,
    /// Close the list.
    Leave,
    /// Nothing.
    Ignore,
}

/// What `key` asks of the list. The arrow keys move the selection; `j` moves
/// it up and `k` moves it down; Enter runs the selected entry's action; Esc,
/// Backspace, and `c` or `x` with Control held close the list.
pub open spec fn command_of(key: Key) -> ListCommand {
    match key.code {
        KeyCode::Up => ListCommand::Up,
        KeyCode::Down => ListCommand::Down,
        KeyCode::Enter => ListCommand::Activate,
        KeyCode::Esc => ListCommand::Leave,
        KeyCode::Backspace => ListCommand::Leave,
        KeyCode::Char(c) => if c == 'j' {
            ListCommand::Up
        } else if c == 'k' {
            ListCommand::Down
        } else if (c == 'x' || c == 'c') && key.modifiers.control {
            ListCommand::Leave
        } else {
            ListCommand::Ignore
        },
        _ => ListCommand::Ignore,
    }
}

/// The selected index after `command`, in a list of `len` entries with the
/// entry at `selected` selected: one up or one down where there is an entry
/// to go to, and unchanged otherwise. The selection does not wrap around.
pub open spec fn moved(len: nat, selected: nat, command: ListCommand) -> nat {
    match command {
        ListCommand::Up => if selected > 0 {
            (selected - 1) as nat
        } else {
            selected
        },
        ListCommand::Down => if selected + 1 < len {
            selected + 1
        } else {
            selected
        },
        _ => selected,
    }
}

/// The selected index after `command` has been given `presses` times.
pub open spec fn moved_repeatedly(
    len: nat,
    selected: nat,
    command: ListCommand,
    presses: nat,
) -> nat
    decreases presses,
{
    if presses == 0 {
        selected
    } else {
        moved_repeatedly(len, moved(len, selected, command), command, (presses - 1) as nat)
    }
}

/// The screen row on which the entry at `index` is drawn: the entries follow
/// one another from row 1 on. `None` where the row is beyond what a screen
/// position can hold.
pub fn screen_row(index: usize) -> (row: Option<u16>)
    ensures
        match row {
            Some(r) => r == index + 1,
            None => index + 1 > u16::MAX,
        },
{
    if index < u16::MAX as usize {
        Some(index as u16 + 1)
    } else {
        None
    }
}

/// Reads what `key` asks of the list.
pub fn read_key(key: Key) -> (command: ListCommand)
    ensures
        command == command_of(key),
{
    match key.code {
        KeyCode::Up => ListCommand::Up,
        KeyCode::Down => ListCommand::Down,
        KeyCode::Enter => ListCommand::Activate,
        KeyCode::Esc => ListCommand::Leave,
        KeyCode::Backspace => ListCommand::Leave,
        KeyCode::Char(c) => {
            if c == 'j' {
                ListCommand::Up
            } else if c == 'k' {
                ListCommand::Down
            } else if (c == 'x' || c == 'c') && key.modifiers.control {
                ListCommand::Leave
            } else {
                ListCommand::Ignore
            }
        },
        _ => ListCommand::Ignore,
    }
}

/// A list of entries with one of them selected. An empty list has nothing
/// selected; its index stays 0 and no key moves it or runs an action.
pub struct SelectionState<'a, T, F: Fn(&T) -> bool> {
    entries: Vec<ListItem<'a, T, F>>,
    selected_index: usize,
}

impl<'a, T, F: Fn(&T) -> bool> SelectionState<'a, T, F> {
    #[verifier::type_invariant]
    spec fn selection_in_list(&self) -> bool {
        &&& self.entries.len() == 0 ==> self.selected_index == 0
        &&& self.entries.len() > 0 ==> self.selected_index < self.entries.len()
        &&& forall|i: int| 0 <= i < self.entries.len() ==> (#[trigger] self.entries[i]).can_act()
    }

    /// The entries, in the order in which they are drawn.
    pub closed spec fn entries(&self) -> Seq<ListItem<'a, T, F>> {
        self.entries@
    }

    /// The index of the selected entry.
    pub closed spec fn selected(&self) -> nat {
        self.selected_index as nat
    }

    /// The selection is an entry of the list, or 0 in an empty list.
    pub open spec fn well_formed(&self) -> bool {
        if self.entries().len() == 0 {
            self.selected() == 0
        } else {
            self.selected() < self.entries().len()
        }
    }

    /// A list of `entries` with the first one selected.
    pub fn new(entries: Vec<ListItem<'a, T, F>>) -> (state: Self)
        requires
            forall|i: int| 0 <= i < entries.len() ==> (#[trigger] entries[i]).can_act(),
        ensures
            state.entries() == entries@,
            state.selected() == 0,
    {
        SelectionState { entries, selected_index: 0 }
    }

    /// The number of entries.
    pub fn len(&self) -> (len: usize)
        ensures
            len == self.entries().len(),
    {
        self.entries.len()
    }

    /// The index of the selected entry.
    pub fn selected_index(&self) -> (index: usize)
        ensures
            index == self.selected(),
            self.well_formed(),
    {
        proof {
            use_type_invariant(self);
        }
        self.selected_index
    }

    /// The entry at `index`.
    pub fn entry(&self, index: usize) -> (item: &ListItem<'a, T, F>)
        requires
            index < self.entries().len(),
        ensures
            *item == self.entries()[index as int],
    {
        &self.entries[index]
    }

    /// Applies one key press and tells whether the list is to close.
    ///
    /// The selection moves as `moved` says. The list closes on a key that
    /// asks for it, and after the selected entry's action where that action
    /// says so; the action runs on Enter and on no other key.
    pub fn handle_key(&mut self, key: Key) -> (close: bool)
        ensures
            final(self).entries() == old(self).entries(),
            final(self).selected() == moved(
                old(self).entries().len(),
                old(self).selected(),
                command_of(key),
            ),
            final(self).well_formed(),
            match command_of(key) {
                ListCommand::Leave => close,
                ListCommand::Activate => if old(self).entries().len() > 0 {
                    old(self).entries()[old(self).selected() as int].acts(close)
                } else {
                    !close
                },
                _ => !close,
            },
    {
        proof {
            use_type_invariant(&*self);
        }
        match read_key(key) {
            ListCommand::Up => {
                if self.selected_index > 0 {
                    self.selected_index = self.selected_index - 1;
                }
                false
            },
            ListCommand::Down => {
                if self.entries.len() > 0 && self.selected_index < self.entries.len() - 1 {
                    self.selected_index = self.selected_index + 1;
                }
                false
            },
            ListCommand::Activate => {
                if self.selected_index < self.entries.len() {
                    self.entries[self.selected_index].callback()
                } else {
                    false
                }
            },
            ListCommand::Leave => true,
            ListCommand::Ignore => false,
        }
    }
}

/// No key takes the selection out of a list that has entries.
pub proof fn lemma_selection_stays_in_list(len: nat, selected: nat, command: ListCommand)
    requires
        len > 0,
        selected < len,
    ensures
        moved(len, selected, command) < len,
{
}

/// Pressing Down again and again moves the selection one entry at a time to
/// the last entry, and there it stays.
pub proof fn lemma_down_settles_on_last(len: nat, selected: nat, presses: nat)
    requires
        len > 0,
        selected < len,
    ensures
        moved_repeatedly(len, selected, ListCommand::Down, presses) == if selected + presses < len {
            selected + presses
        } else {
            (len - 1) as nat
        },
    decreases presses,
{
    if presses > 0 {
        lemma_down_settles_on_last(
            len,
            moved(len, selected, ListCommand::Down),
            (presses - 1) as nat,
        );
    }
}

/// Pressing Up again and again moves the selection one entry at a time to the
/// first entry, and there it stays.
pub proof fn lemma_up_settles_on_first(len: nat, selected: nat, presses: nat)
    requires
        len > 0,
        selected < len,
    ensures
        moved_repeatedly(len, selected, ListCommand::Up, presses) == if presses <= selected {
            (selected - presses) as nat
        } else {
            0
        },
    decreases presses,
{
    if presses > 0 {
        lemma_up_settles_on_first(len, moved(len, selected, ListCommand::Up), (presses - 1) as nat);
    }
}

} // verus!
