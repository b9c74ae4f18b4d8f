use selection::linux::{get_text, session, step, Action, Event, Session, Stage};

#[test]
fn xdg_session_type_decides_when_it_names_a_session() {
    assert_eq!(session(Some("wayland"), false, true), Some(Session::Wayland));
    assert_eq!(session(Some("x11"), true, false), Some(Session::X11));
}

#[test]
fn wayland_display_is_looked_at_before_display() {
    assert_eq!(session(None, true, true), Some(Session::Wayland));
    assert_eq!(session(Some("tty"), true, true), Some(Session::Wayland));
    assert_eq!(session(Some(""), false, true), Some(Session::X11));
    assert_eq!(session(Some("Wayland"), false, true), Some(Session::X11));
}

#[test]
fn no_display_variable_means_no_session() {
    assert_eq!(session(None, false, false), None);
    assert_eq!(session(Some("mir"), false, false), None);
}

fn returned(action: Action) -> String {
    match action {
        Action::Return(t) => t,
        _ => panic!("the read did not end"),
    }
}

#[test]
fn no_session_reads_nothing() {
    let (stage, action) = get_text(None);
    assert_eq!(stage, Stage::Finished);
    assert_eq!(returned(action), "");
}

#[test]
fn x11_session_reads_the_x11_primary_selection() {
    let (stage, action) = get_text(Some(Session::X11));
    assert_eq!(stage, Stage::ReadingX11);
    assert!(matches!(action, Action::ReadX11Primary));
    let (stage, action) = step(stage, Event::Contents(Some(b"  picked text\0".to_vec())));
    assert_eq!(stage, Stage::Finished);
    assert_eq!(returned(action), "picked text");
}

#[test]
fn wayland_session_with_primary_selection_reads_it() {
    let (stage, action) = get_text(Some(Session::Wayland));
    assert!(matches!(action, Action::CheckPrimarySupport));
    let (stage, action) = step(stage, Event::PrimarySupport(Some(true)));
    assert!(matches!(action, Action::ReadWaylandPrimary));
    let (_, action) = step(stage, Event::Contents(Some(b"\nwayland text\n".to_vec())));
    assert_eq!(returned(action), "wayland text");
}

#[test]
fn wayland_without_primary_selection_falls_back_to_x11() {
    for support in [Some(false), None] {
        let (stage, _) = get_text(Some(Session::Wayland));
        let (stage, action) = step(stage, Event::PrimarySupport(support));
        assert_eq!(stage, Stage::ReadingX11);
        assert!(matches!(action, Action::ReadX11Primary));
    }
}

#[test]
fn a_failed_read_gives_nothing() {
    let (stage, _) = get_text(Some(Session::X11));
    let (_, action) = step(stage, Event::Contents(None));
    assert_eq!(returned(action), "");
}

#[test]
fn a_reply_that_was_not_asked_for_ends_the_read() {
    let (stage, _) = get_text(Some(Session::Wayland));
    let (stage, action) = step(stage, Event::Contents(Some(b"x".to_vec())));
    assert_eq!(stage, Stage::Finished);
    assert_eq!(returned(action), "");
}
