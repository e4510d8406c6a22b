//! One entry of a numbered menu.

use vstd::prelude::*;

verus! {

/// A menu entry: a name and the command that choosing it runs. The command
/// tells by its result whether the menu is to go on.
pub struct MenuItem<F> {
    pub name: String,
    pub command: F,
}

} // verus!
