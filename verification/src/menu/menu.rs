//! A numbered menu: the user picks an entry by typing its number.

use crate::menu::menu_item::MenuItem;
use crate::text::{trim, trimmed};
use vstd::prelude::*;

verus! {

/// The number that `str::parse::<u64>` reads out of a text, if it reads one.
pub uninterp spec fn parsed_number(text: Seq<char>) -> Option<u64>;

/// Reads `text` as a number with `str::parse::<u64>`. What that function
/// makes of a text depends on the text alone; the contract gives its answer a
/// name and claims nothing else of it.
#[verifier::external_body]
fn parse_number(text: &str) -> (number: Option<u64>)
    ensures
        number == parsed_number(text@),
{
    text.parse::<u64>().ok()
}

/// The entry that a typed number picks in a menu of `len` entries: the
/// entries are numbered from 1, and anything else picks nothing.
pub open spec fn picked(number: Option<u64>, len: nat) -> Option<usize> {
    match number {
        Some(n) => if 1 <= n <= len {
            Some((n - 1) as usize)
        } else {
            None
        },
        None => None,
    }
}

/// The entry that a typed number picks in a menu of `len` entries.
pub fn pick(number: Option<u64>, len: usize) -> (index: Option<usize>)
    ensures
        index == picked(number, len as nat),
{
    match number {
        Some(n) => {
            if 1 <= n && n - 1 < len as u64 {
                Some((n - 1) as usize)
            } else {
                None
            }
        },
        None => None,
    }
}

/// A menu with a title and numbered entries.
pub struct Menu<F> {
    title: String,
    menu_items: Vec<MenuItem<F>>,
}

impl<F: Fn() -> bool> Menu<F> {
    /// The title.
    pub closed spec fn title(&self) -> Seq<char> {
        self.title@
    }

    /// The entries, in the order of their numbers.
    pub closed spec fn items(&self) -> Seq<MenuItem<F>> {
        self.menu_items@
    }

    /// Every entry's command can be run.
    pub open spec fn can_run(&self) -> bool {
        forall|i: int| 0 <= i < self.items().len() ==> call_requires(self.items()[i].command, ())
    }

    /// The entry that a typed line picks: the line is trimmed and read as a
    /// number.
    pub open spec fn selection(&self, line: Seq<char>) -> Option<usize> {
        picked(parsed_number(trimmed(line)), self.items().len())
    }

    /// A menu without a title and without entries.
    pub fn new() -> (menu: Self)
        ensures
            menu.title() == Seq::<char>::empty(),
            menu.items() == Seq::<MenuItem<F>>::empty(),
    {
        Menu { title: String::new(), menu_items: Vec::new() }
    }

    /// Gives the menu its title.
    pub fn set_title(&mut self, title: &str)
        ensures
            final(self).title() == title@,
            final(self).items() == old(self).items(),
    {
        self.title = title.to_owned();
    }

    /// Adds an entry after the ones that are there.
    pub fn add_menu_item(&mut self, item: MenuItem<F>)
        ensures
            final(self).title() == old(self).title(),
            final(self).items() == old(self).items().push(item),
    {
        self.menu_items.push(item);
    }

    /// The title.
    pub fn title_text(&self) -> (title: &str)
        ensures
            title@ == self.title(),
    {
        self.title.as_str()
    }

    /// The number of entries.
    pub fn len(&self) -> (len: usize)
        ensures
            len == self.items().len(),
    {
        self.menu_items.len()
    }

    /// The name of the entry at `index`.
    pub fn item_name(&self, index: usize) -> (name: &str)
        requires
            index < self.items().len(),
        ensures
            name@ == self.items()[index as int].name@,
    {
        self.menu_items[index].name.as_str()
    }

    /// The entry that the typed `line` picks, or `None` where the line is no
    /// number of an entry.
    pub fn select(&self, line: &str) -> (index: Option<usize>)
        ensures
            index == self.selection(line@),
    {
        let typed = trim(line);
        pick(parse_number(typed.as_str()), self.menu_items.len())
    }

    /// Answers a typed line. Where the line picks an entry, that entry's
    /// command runs, and the result is what it returned: whether the menu is
    /// to go on. Where the line picks nothing, no command runs and the result
    /// is `None`: the input is invalid and is to be asked for again.
    pub fn respond(&self, line: &str) -> (go_on: Option<bool>)
        requires
            self.can_run(),
        ensures
            match self.selection(line@) {
                Some(index) => go_on matches Some(answer) && call_ensures(
                    self.items()[index as int].command,
                    (),
                    answer,
                ),
                None => go_on.is_none(),
            },
    {
        match self.select(line) {
            Some(index) => Some((self.menu_items[index].command)()),
            None => None,
        }
    }
}

impl<F: Fn() -> bool> Default for Menu<F> {
    fn default() -> (menu: Self)
        ensures
            menu.title() == Seq::<char>::empty(),
            menu.items() == Seq::<MenuItem<F>>::empty(),
    {
        Menu::new()
    }
}

} // verus!
