use searchhelp::terminal::{plan_setup, undo, Restore, Session, SessionKind, Setup};

#[test]
fn the_list_hides_the_cursor() {
    assert_eq!(
        plan_setup(SessionKind::List),
        vec![Setup::RawMode, Setup::AlternateScreen, Setup::HideCursor]
    );
}

#[test]
fn the_editor_shows_a_blinking_bar() {
    assert_eq!(
        plan_setup(SessionKind::Editor),
        vec![Setup::RawMode, Setup::AlternateScreen, Setup::ShowCursor, Setup::BlinkingBarCursor]
    );
}

#[test]
fn each_change_has_its_way_back() {
    assert_eq!(undo(Setup::RawMode), Some(Restore::CookedMode));
    assert_eq!(undo(Setup::AlternateScreen), Some(Restore::MainScreen));
    assert_eq!(undo(Setup::HideCursor), Some(Restore::ShowCursor));
    assert_eq!(undo(Setup::ShowCursor), None);
    assert_eq!(undo(Setup::BlinkingBarCursor), Some(Restore::DefaultCursor));
}

fn set_up(kind: SessionKind) -> Session {
    let mut session = Session::new();
    for step in plan_setup(kind) {
        session.record(step);
    }
    session
}

#[test]
fn release_puts_back_the_last_change_first() {
    assert_eq!(
        set_up(SessionKind::List).release(),
        vec![Restore::ShowCursor, Restore::MainScreen, Restore::CookedMode]
    );
    assert_eq!(
        set_up(SessionKind::Editor).release(),
        vec![Restore::DefaultCursor, Restore::MainScreen, Restore::CookedMode]
    );
}

#[test]
fn release_after_a_setup_that_failed_half_way() {
    let mut session = Session::new();
    session.record(Setup::RawMode);
    assert_eq!(session.release(), vec![Restore::CookedMode]);
    assert_eq!(Session::new().release(), Vec::<Restore>::new());
}

#[test]
fn a_second_release_has_nothing_to_do() {
    let mut session = set_up(SessionKind::List);
    assert_eq!(session.release().len(), 3);
    assert_eq!(session.release(), Vec::<Restore>::new());
}
