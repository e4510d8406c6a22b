pub mod menu;
pub mod menu_item;
