//! The terminal session: what a component changes on the terminal before its
//! loop runs, and what has to be put back, in which order, when it ends.
//!
//! The library decides the steps; the caller carries them out. A session
//! records each setup step once it has succeeded, so that releasing it puts
//! back exactly what was changed, also where setting up failed half way.

use vstd::prelude::*;

verus! {

/// The component that wants the terminal.
#[derive(Clone, Copy, Debug, PartialEq, Eq, Structural)]
pub enum SessionKind {
    /// The selection list: no cursor is shown.
    List,
    /// The field editor: the cursor is shown as a blinking bar.
    Editor,
}

/// A change made to the terminal when a session is set up.
#[derive(Clone, Copy, Debug, PartialEq, Eq, Structural)]
pub enum Setup {
    RawMode,
    AlternateScreen,
    HideCursor,
    ShowCursor,
    BlinkingBarCursor,
}

/// A change that puts back what a setup step changed.
#[derive(Clone, Copy, Debug, PartialEq, Eq, Structural)]
pub enum Restore {
    CookedMode,
    MainScreen,
    ShowCursor,
    DefaultCursor,
}

/// The steps that set up a session of `kind`, in order.
pub open spec fn setup_steps(kind: SessionKind) -> Seq<Setup> {
    match kind {
        SessionKind::List => seq![Setup::RawMode, Setup::AlternateScreen, Setup::HideCursor],
        SessionKind::Editor => seq![
            Setup::RawMode,
            Setup::AlternateScreen,
            Setup::ShowCursor,
            Setup::BlinkingBarCursor,
        ],
    }
}

/// What puts back the change of `step`. Showing the cursor changes nothing
/// that has to be put back.
pub open spec fn restore_of(step: Setup) -> Option<Restore> {
    match step {
        Setup::RawMode => Some(Restore::CookedMode),
        Setup::AlternateScreen => Some(Restore::MainScreen),
        Setup::HideCursor => Some(Restore::ShowCursor),
        Setup::ShowCursor => None,
        Setup::BlinkingBarCursor => Some(Restore::DefaultCursor),
    }
}

/// The steps that put back what `applied` changed: the restoring step of each
/// applied step, the last applied first.
pub open spec fn restore_steps(applied: Seq<Setup>) -> Seq<Restore>
    decreases applied.len(),
{
    if applied.len() == 0 {
        Seq::<Restore>::empty()
    } else {
        match restore_of(applied.last()) {
            Some(step) => seq![step] + restore_steps(applied.drop_last()),
            None => restore_steps(applied.drop_last()),
        }
    }
}

/// The steps that set up a session of `kind`, in order.
pub fn plan_setup(kind: SessionKind) -> (steps: Vec<Setup>)
    ensures
        steps@ == setup_steps(kind),
{
    let mut steps: Vec<Setup> = Vec::new();
    steps.push(Setup::RawMode);
    steps.push(Setup::AlternateScreen);
    match kind {
        SessionKind::List => {
            steps.push(Setup::HideCursor);
        },
        SessionKind::Editor => {
            steps.push(Setup::ShowCursor);
            steps.push(Setup::BlinkingBarCursor);
        },
    }
    steps
}

/// What puts back the change of `step`.
pub fn undo(step: Setup) -> (restore: Option<Restore>)
    ensures
        restore == restore_of(step),
{
    match step {
        Setup::RawMode => Some(Restore::CookedMode),
        Setup::AlternateScreen => Some(Restore::MainScreen),
        Setup::HideCursor => Some(Restore::ShowCursor),
        Setup::ShowCursor => None,
        Setup::BlinkingBarCursor => Some(Restore::DefaultCursor),
    }
}

/// The record of a terminal session: the setup steps that have succeeded, in
/// the order in which they were made.
pub struct Session {
    applied: Vec<Setup>,
}

impl View for Session {
    type V = Seq<Setup>;

    closed spec fn view(&self) -> Seq<Setup> {
        self.applied@
    }
}

impl Session {
    /// A session in which nothing has been changed yet.
    pub fn new() -> (session: Session)
        ensures
            session@ == Seq::<Setup>::empty(),
    {
        Session { applied: Vec::new() }
    }

    /// Records that `step` has been carried out.
    pub fn record(&mut self, step: Setup)
        ensures
            final(self)@ == old(self)@.push(step),
    {
        self.applied.push(step);
    }

    /// Ends the session: gives the steps that put the terminal back, the last
    /// change first, and forgets the recorded changes, so that releasing a
    /// second time has nothing left to do.
    pub fn release(&mut self) -> (steps: Vec<Restore>)
        ensures
            steps@ == restore_steps(old(self)@),
            final(self)@ == Seq::<Setup>::empty(),
    {
        let mut steps: Vec<Restore> = Vec::new();
        let ghost all = self.applied@;
        while self.applied.len() > 0
            invariant
                steps@ + restore_steps(self.applied@) == restore_steps(all),
            decreases self.applied.len(),
        {
            let ghost before = self.applied@;
            let step = self.applied.pop().unwrap();
            assert(self.applied@ == before.drop_last());
            match undo(step) {
                Some(restore) => {
                    steps.push(restore);
                },
                None => {},
            }
        }
        steps
    }
}

/// Releasing a session that was set up in full puts back raw mode last: for
/// the list the cursor is shown again, the alternate screen is left and raw
/// mode ends; for the editor the cursor gets its default shape, the alternate
/// screen is left and raw mode ends.
pub proof fn lemma_release_of_full_setup(kind: SessionKind)
    ensures
        restore_steps(setup_steps(kind)) == match kind {
            SessionKind::List => seq![
                Restore::ShowCursor,
                Restore::MainScreen,
                Restore::CookedMode,
            ],
            SessionKind::Editor => seq![
                Restore::DefaultCursor,
                Restore::MainScreen,
                Restore::CookedMode,
            ],
        },
{
    reveal_with_fuel(restore_steps, 5);
}

/// Whatever was set up, releasing first puts back what was changed last: the
/// restoring steps of a longer record begin with those of the step added.
pub proof fn lemma_release_undoes_last_first(applied: Seq<Setup>, step: Setup)
    ensures
        restore_steps(applied.push(step)) == match restore_of(step) {
            Some(restore) => seq![restore] + restore_steps(applied),
            None => restore_steps(applied),
        },
{
    assert(applied.push(step).drop_last() == applied);
}

} // verus!
