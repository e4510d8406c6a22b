//! One entry of a selection list: a label, a payload, and the action that is
//! run on the payload when the entry is chosen.

use vstd::prelude::*;

verus! {

/// A list entry. The action tells by its result whether the list is to close
/// after it has run.
pub struct ListItem<'a, T, F> {
    pub text: &'a str,
    object: T,
    callback: F,
}

impl<'a, T, F: Fn(&T) -> bool> ListItem<'a, T, F> {
    /// The label.
    pub closed spec fn label(&self) -> Seq<char> {
        self.text@
    }

    /// The payload that the action is run on.
    pub closed spec fn payload(&self) -> T {
        self.object
    }

    /// The action.
    pub closed spec fn action(&self) -> F {
        self.callback
    }

    /// The action can be run on the payload.
    pub open spec fn can_act(&self) -> bool {
        call_requires(self.action(), (&self.payload(),))
    }

    /// `stop` is a result that the action can give on the payload.
    pub open spec fn acts(&self, stop: bool) -> bool {
        call_ensures(self.action(), (&self.payload(),), stop)
    }

    /// An entry labelled `text` that runs `callback` on `object`.
    pub fn new(text: &'a str, object: T, callback: F) -> (item: Self)
        ensures
            item.label() == text@,
            item.payload() == object,
            item.action() == callback,
    {
        ListItem { text, object, callback }
    }

    /// Runs the action on the payload and hands its result on: `true` asks the
    /// list to close.
    pub fn callback(&self) -> (stop: bool)
        requires
            self.can_act(),
        ensures
            self.acts(stop),
    {
        (self.callback)(&self.object)
    }
}

} // verus!
