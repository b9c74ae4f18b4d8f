use selection::windows::{
    automation_text, chord_events, copy, copy_step, get_text, get_text_step, set_text,
    set_text_step, ClipboardRead, CopyAction, CopyEvent, CopyStage, Direction, FormatAction, Key,
    KeyEvent, OpenRetry, OpenStep, PasteAction, PasteEvent, ReadAction, ReadEvent, Snapshot,
    CLIPBOARD_OPEN_ATTEMPTS, COPY_POLL_INTERVAL_MS, COPY_TIMEOUT_MS, PASTE_SETTLE_MS,
};

#[test]
fn chord_releases_held_keys_then_sends_ctrl_key() {
    let events = chord_events(Key::V);
    let released = [
        Key::Control,
        Key::Alt,
        Key::Shift,
        Key::Space,
        Key::Meta,
        Key::Tab,
        Key::Escape,
        Key::CapsLock,
        Key::V,
    ];
    assert_eq!(events.len(), 12);
    for (i, key) in released.iter().enumerate() {
        assert_eq!(events[i], KeyEvent { key: *key, direction: Direction::Release });
    }
    assert_eq!(events[9], KeyEvent { key: Key::Control, direction: Direction::Press });
    assert_eq!(events[10], KeyEvent { key: Key::V, direction: Direction::Click });
    assert_eq!(events[11], KeyEvent { key: Key::Control, direction: Direction::Release });
}

#[test]
fn format_actions() {
    assert_eq!(Snapshot::format_action(0), FormatAction::Stop);
    for f in [2u32, 3, 9, 14, 0x80, 0x82, 0x83, 0x8e] {
        assert_eq!(Snapshot::format_action(f), FormatAction::Skip);
    }
    for f in [1u32, 7, 13, 15, 0xc0ff] {
        assert_eq!(Snapshot::format_action(f), FormatAction::Read);
    }
}

#[test]
fn snapshot_keeps_only_memory_blocks_in_order() {
    let mut s = Snapshot::empty();
    assert!(s.entries().is_empty());
    s.record(13, Some(vec![b'h', 0, b'i', 0, 0, 0]));
    s.record(2, Some(vec![1, 2, 3]));
    s.record(0, Some(vec![1]));
    s.record(49161, Some(Vec::new()));
    s.record(49162, None);
    s.record(1, Some(b"hi\0".to_vec()));
    let e = s.entries();
    assert_eq!(e.len(), 2);
    assert_eq!(e[0], (13, vec![b'h', 0, b'i', 0, 0, 0]));
    assert_eq!(e[1], (1, b"hi\0".to_vec()));
}

#[test]
fn opening_the_clipboard_gives_up_after_the_last_attempt() {
    let mut r = OpenRetry::new();
    let mut pauses: u32 = 0;
    for attempt in 1..=CLIPBOARD_OPEN_ATTEMPTS {
        let (next, s) = r.step(false);
        r = next;
        if attempt < CLIPBOARD_OPEN_ATTEMPTS {
            assert_eq!(s, OpenStep::PauseThenRetry(10));
            pauses += 1;
        } else {
            assert_eq!(s, OpenStep::GiveUp);
        }
    }
    assert_eq!(pauses, 9);
    assert_eq!(r.tries, 10);
}

#[test]
fn opening_the_clipboard_stops_at_the_first_success() {
    let r = OpenRetry::new();
    let (r, s) = r.step(false);
    assert_eq!(s, OpenStep::PauseThenRetry(10));
    let (r, s) = r.step(true);
    assert_eq!(s, OpenStep::Opened);
    assert_eq!(r.tries, 2);
}

#[test]
fn copy_succeeds_when_the_sequence_number_moves() {
    let (stage, action) = copy();
    assert_eq!(action, CopyAction::ReadSequence);
    let (stage, action) = copy_step(stage, CopyEvent::Sequence(41));
    assert_eq!(action, CopyAction::SendChord(Key::C));
    let (stage, action) = copy_step(stage, CopyEvent::ChordSent(true));
    assert_eq!(action, CopyAction::WaitThenPoll(COPY_POLL_INTERVAL_MS));
    let (stage, action) = copy_step(stage, CopyEvent::Poll { sequence: 41, elapsed_ms: 5 });
    assert_eq!(action, CopyAction::WaitThenPoll(5));
    let (stage, action) = copy_step(stage, CopyEvent::Poll { sequence: 42, elapsed_ms: 11 });
    assert_eq!(action, CopyAction::Return(true));
    assert_eq!(stage, CopyStage::Finished);
}

#[test]
fn copy_gives_up_at_the_deadline() {
    let (stage, _) = copy();
    let (stage, _) = copy_step(stage, CopyEvent::Sequence(7));
    let (stage, _) = copy_step(stage, CopyEvent::ChordSent(true));
    let (stage, action) = copy_step(stage, CopyEvent::Poll { sequence: 7, elapsed_ms: 249 });
    assert_eq!(action, CopyAction::WaitThenPoll(5));
    let (_, action) =
        copy_step(stage, CopyEvent::Poll { sequence: 7, elapsed_ms: COPY_TIMEOUT_MS });
    assert_eq!(action, CopyAction::Return(false));
}

#[test]
fn a_chord_that_was_not_sent_copies_nothing() {
    let (stage, _) = copy();
    let (stage, _) = copy_step(stage, CopyEvent::Sequence(7));
    let (_, action) = copy_step(stage, CopyEvent::ChordSent(false));
    assert_eq!(action, CopyAction::Return(false));
}

#[test]
fn automation_text_joins_and_trims_the_ranges() {
    let ranges = vec![" first ".to_string(), "".to_string(), "second\r\n".to_string()];
    assert_eq!(automation_text(&ranges), "first second");
    assert_eq!(automation_text(&Vec::new()), "");
}

fn read_result(a: ReadAction) -> String {
    match a {
        ReadAction::Return(t) => t,
        _ => panic!("the read did not end"),
    }
}

#[test]
fn automation_text_is_used_when_there_is_any() {
    let (stage, action) = get_text();
    assert!(matches!(action, ReadAction::ReadAutomation));
    let (_, action) =
        get_text_step(stage, ReadEvent::Automation(Some(vec!["  from automation ".to_string()])));
    assert_eq!(read_result(action), "from automation");
}

#[test]
fn the_clipboard_is_borrowed_and_given_back() {
    let (stage, _) = get_text();
    let (stage, action) = get_text_step(stage, ReadEvent::Automation(Some(vec![" ".to_string()])));
    assert!(matches!(action, ReadAction::TakeSnapshot));
    let mut snapshot = Snapshot::empty();
    snapshot.record(13, Some(vec![b'u', 0, 0, 0]));
    let (stage, action) = get_text_step(stage, ReadEvent::SnapshotTaken(Some(snapshot)));
    assert!(matches!(action, ReadAction::Copy));
    let (stage, action) = get_text_step(stage, ReadEvent::Copied(true));
    assert!(matches!(action, ReadAction::ReadClipboard));
    let (stage, action) =
        get_text_step(stage, ReadEvent::Clipboard(ClipboardRead::Text(" copied\n".to_string())));
    match &action {
        ReadAction::Restore(s) => assert_eq!(s.entries(), &[(13u32, vec![b'u', 0, 0, 0])][..]),
        _ => panic!("the clipboard was not given back"),
    }
    let (_, action) = get_text_step(stage, ReadEvent::Restored(false));
    assert_eq!(read_result(action), "copied");
}

#[test]
fn an_unreadable_clipboard_is_restored_empty() {
    let (stage, _) = get_text();
    let (stage, _) = get_text_step(stage, ReadEvent::Automation(None));
    let (stage, _) = get_text_step(stage, ReadEvent::SnapshotTaken(None));
    let (stage, _) = get_text_step(stage, ReadEvent::Copied(true));
    let (stage, action) = get_text_step(stage, ReadEvent::Clipboard(ClipboardRead::Failed));
    match &action {
        ReadAction::Restore(s) => assert!(s.entries().is_empty()),
        _ => panic!("the clipboard was not given back"),
    }
    let (_, action) = get_text_step(stage, ReadEvent::Restored(true));
    assert_eq!(read_result(action), "");
}

#[test]
fn nothing_copied_leaves_the_clipboard_alone() {
    let (stage, _) = get_text();
    let (stage, _) = get_text_step(stage, ReadEvent::Automation(None));
    let (stage, _) = get_text_step(stage, ReadEvent::SnapshotTaken(None));
    let (_, action) = get_text_step(stage, ReadEvent::Copied(false));
    assert_eq!(read_result(action), "");
}

#[test]
fn no_clipboard_to_read_from_still_restores() {
    let (stage, _) = get_text();
    let (stage, _) = get_text_step(stage, ReadEvent::Automation(None));
    let mut snapshot = Snapshot::empty();
    snapshot.record(1, Some(b"kept\0".to_vec()));
    let (stage, _) = get_text_step(stage, ReadEvent::SnapshotTaken(Some(snapshot)));
    let (stage, _) = get_text_step(stage, ReadEvent::Copied(true));
    let (stage, action) = get_text_step(stage, ReadEvent::Clipboard(ClipboardRead::Unavailable));
    match &action {
        ReadAction::Restore(s) => assert_eq!(s.entries(), &[(1u32, b"kept\0".to_vec())][..]),
        _ => panic!("the clipboard was not given back"),
    }
    let (_, action) = get_text_step(stage, ReadEvent::Restored(true));
    assert_eq!(read_result(action), "");
}

#[test]
fn paste_borrows_the_clipboard_and_gives_it_back() {
    let (stage, action) = set_text("new text");
    assert!(matches!(action, PasteAction::TakeSnapshot));
    let mut snapshot = Snapshot::empty();
    snapshot.record(1, Some(b"old\0".to_vec()));
    let (stage, action) = set_text_step(stage, PasteEvent::SnapshotTaken(Some(snapshot)));
    match &action {
        PasteAction::SetClipboard(t) => assert_eq!(t, "new text"),
        _ => panic!("the text was not put on the clipboard"),
    }
    let (stage, action) = set_text_step(stage, PasteEvent::ClipboardSet(true));
    assert!(matches!(action, PasteAction::Paste(Key::V)));
    let (stage, action) = set_text_step(stage, PasteEvent::Pasted(true));
    assert!(matches!(action, PasteAction::Settle(PASTE_SETTLE_MS)));
    let (stage, action) = set_text_step(stage, PasteEvent::Settled);
    match &action {
        PasteAction::Restore(s) => assert_eq!(s.entries(), &[(1u32, b"old\0".to_vec())][..]),
        _ => panic!("the clipboard was not given back"),
    }
    let (_, action) = set_text_step(stage, PasteEvent::Restored(true));
    assert!(matches!(action, PasteAction::Return(true)));
}

#[test]
fn a_failed_paste_is_reported_after_restoring() {
    let (stage, _) = set_text("x");
    let (stage, _) = set_text_step(stage, PasteEvent::SnapshotTaken(None));
    let (stage, _) = set_text_step(stage, PasteEvent::ClipboardSet(true));
    let (stage, _) = set_text_step(stage, PasteEvent::Pasted(false));
    let (stage, action) = set_text_step(stage, PasteEvent::Settled);
    assert!(matches!(action, PasteAction::Restore(_)));
    let (_, action) = set_text_step(stage, PasteEvent::Restored(true));
    assert!(matches!(action, PasteAction::Return(false)));
}

#[test]
fn a_clipboard_that_cannot_be_set_is_not_pasted_or_restored() {
    let (stage, _) = set_text("x");
    let (stage, _) = set_text_step(stage, PasteEvent::SnapshotTaken(None));
    let (_, action) = set_text_step(stage, PasteEvent::ClipboardSet(false));
    assert!(matches!(action, PasteAction::Return(false)));
}
