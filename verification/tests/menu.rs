use searchhelp::menu::menu::{pick, Menu};
use searchhelp::menu::menu_item::MenuItem;
use std::cell::Cell;

fn go_on() -> bool {
    true
}

fn stop() -> bool {
    false
}

fn edit_menu() -> Menu<fn() -> bool> {
    let mut menu: Menu<fn() -> bool> = Menu::default();
    menu.set_title("Edit Menu");
    menu.add_menu_item(MenuItem { name: "Add program".to_string(), command: go_on });
    menu.add_menu_item(MenuItem { name: "List programs".to_string(), command: go_on });
    menu.add_menu_item(MenuItem { name: "Back".to_string(), command: stop });
    menu
}

#[test]
fn a_new_menu_is_empty() {
    let menu: Menu<fn() -> bool> = Menu::new();
    assert_eq!(menu.title_text(), "");
    assert_eq!(menu.len(), 0);
    assert_eq!(menu.select("1"), None);
}

#[test]
fn title_and_items_are_kept_in_order() {
    let mut menu = edit_menu();
    assert_eq!(menu.title_text(), "Edit Menu");
    assert_eq!(menu.len(), 3);
    assert_eq!(menu.item_name(0), "Add program");
    assert_eq!(menu.item_name(1), "List programs");
    assert_eq!(menu.item_name(2), "Back");
    menu.set_title("Other");
    assert_eq!(menu.title_text(), "Other");
    assert_eq!(menu.len(), 3);
}

#[test]
fn a_typed_number_picks_its_entry() {
    let menu = edit_menu();
    assert_eq!(menu.select("1"), Some(0));
    assert_eq!(menu.select("3\n"), Some(2));
    assert_eq!(menu.select("  2  "), Some(1));
}

#[test]
fn anything_else_picks_nothing() {
    let menu = edit_menu();
    for line in ["", "\n", "0", "4", "-1", "x", "1 2", "2.0", "99999999999999999999999"] {
        assert_eq!(menu.select(line), None);
    }
}

#[test]
fn pick_takes_numbers_from_one_to_the_length() {
    assert_eq!(pick(Some(1), 3), Some(0));
    assert_eq!(pick(Some(3), 3), Some(2));
    assert_eq!(pick(Some(0), 3), None);
    assert_eq!(pick(Some(4), 3), None);
    assert_eq!(pick(Some(u64::MAX), 3), None);
    assert_eq!(pick(Some(1), 0), None);
    assert_eq!(pick(None, 3), None);
}

#[test]
fn respond_runs_the_picked_command() {
    let menu = edit_menu();
    assert_eq!(menu.respond("1\n"), Some(true));
    assert_eq!(menu.respond("3\n"), Some(false));
    assert_eq!(menu.respond("nothing\n"), None);
    assert_eq!(menu.respond("\n"), None);
}

#[test]
fn respond_runs_no_command_on_invalid_input() {
    let runs = Cell::new(0);
    let mut menu = Menu::new();
    menu.add_menu_item(MenuItem {
        name: "count".to_string(),
        command: || {
            runs.set(runs.get() + 1);
            true
        },
    });
    assert_eq!(menu.respond("2"), None);
    assert_eq!(runs.get(), 0);
    assert_eq!(menu.respond("1"), Some(true));
    assert_eq!(runs.get(), 1);
}

#[test]
fn the_edit_menu_has_its_three_entries() {
    let menu = searchhelp::edit_menu::EditMenu::menu::<fn() -> bool>(go_on, go_on, stop);
    assert_eq!(menu.title_text(), "Edit Menu");
    assert_eq!(menu.len(), 3);
    assert_eq!(menu.item_name(0), "Add program");
    assert_eq!(menu.item_name(1), "List programs");
    assert_eq!(menu.item_name(2), "Back");
    assert_eq!(menu.respond("1"), Some(true));
    assert_eq!(menu.respond("2"), Some(true));
    assert_eq!(menu.respond("3"), Some(false));
}
