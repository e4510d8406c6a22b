//! Interactive terminal components for a tool that keeps the help texts of
//! programs: a selection list and a field editor, both driven by key presses,
//! with the text handling and the records they work on.
//!
//! The library decides; it neither reads the keyboard nor writes to the
//! screen. A caller reads one key at a time, hands it to the list or to the
//! editor, and draws what they report.

pub mod boundary;
pub mod choise;
pub mod command;
pub mod db;
pub mod edit_menu;
pub mod editor;
pub mod key;
pub mod list;
pub mod menu;
pub mod terminal;
pub mod text;
