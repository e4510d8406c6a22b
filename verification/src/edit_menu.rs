//! The menu for editing the stored programs.

use crate::menu::menu::Menu;
use crate::menu::menu_item::MenuItem;
use vstd::prelude::*;

verus! {

/// The edit menu: three entries under the title "Edit Menu".
pub struct EditMenu {}

impl EditMenu {
    /// The names of the entries, in the order of their numbers.
    pub open spec fn names() -> Seq<Seq<char>> {
        seq!["Add program"@, "List programs"@, "Back"@]
    }

    /// Builds the edit menu around the three commands that its entries run.
    pub fn menu<F: Fn() -> bool>(add_program: F, list_programs: F, back: F) -> (menu: Menu<F>)
        ensures
            menu.title() == "Edit Menu"@,
            menu.items().len() == 3,
            forall|i: int| 0 <= i < 3 ==> (#[trigger] menu.items()[i]).name@ == Self::names()[i],
            menu.items()[0].command == add_program,
            menu.items()[1].command == list_programs,
            menu.items()[2].command == back,
    {
        let mut menu: Menu<F> = Menu::new();
        menu.set_title("Edit Menu");
        menu.add_menu_item(MenuItem { name: "Add program".to_owned(), command: add_program });
        menu.add_menu_item(MenuItem { name: "List programs".to_owned(), command: list_programs });
        menu.add_menu_item(MenuItem { name: "Back".to_owned(), command: back });
        menu
    }
}

} // verus!
