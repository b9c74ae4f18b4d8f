//! Reading and replacing the selection on Windows: the order in which UI
//! Automation, the clipboard and synthesised keystrokes are used, and what
//! is kept of the clipboard while it is borrowed.
use vstd::prelude::*;

use crate::text::{trim, trim_str};
use vstd::string::StringExecFns;

verus! {

/// The keys that the chords here touch.
#[derive(Clone, Copy, Debug, PartialEq, Eq, Structural)]
pub enum Key {
    Control,
    Alt,
    Shift,
    Space,
    Meta,
    Tab,
    Escape,
    CapsLock,
    C,
    V,
}

/// What happens to a key.
#[derive(Clone, Copy, Debug, PartialEq, Eq, Structural)]
pub enum Direction {
    Press,
    Release,
    Click,
}

/// One synthesised key event.
#[derive(Clone, Copy, Debug, PartialEq, Eq, Structural)]
pub struct KeyEvent {
    pub key: Key,
    pub direction: Direction,
}

/// The keys released before a chord: whatever the user may still be holding
/// from the hotkey that got us here, and `key` itself, in case the hotkey
/// contained it.
pub open spec fn held_keys(key: Key) -> Seq<Key> {
    seq![
        Key::Control,
        Key::Alt,
        Key::Shift,
        Key::Space,
        Key::Meta,
        Key::Tab,
        Key::Escape,
        Key::CapsLock,
        key,
    ]
}

/// Ctrl + `key`: every held key released, then Ctrl pressed, `key` clicked
/// and Ctrl released.
pub open spec fn chord(key: Key) -> Seq<KeyEvent> {
    held_keys(key).map_values(|k: Key| KeyEvent { key: k, direction: Direction::Release }) + seq![
        KeyEvent { key: Key::Control, direction: Direction::Press },
        KeyEvent { key: key, direction: Direction::Click },
        KeyEvent { key: Key::Control, direction: Direction::Release },
    ]
}

/// The key events that make up Ctrl + `key` (see `chord`), in the order
/// they are to be sent; sending stops at the first one that fails.
pub fn chord_events(key: Key) -> (events: Vec<KeyEvent>)
    ensures
        events@ == chord(key),
        events@.len() == 12,
        events@[10] == (KeyEvent { key: key, direction: Direction::Click }),
{
    let held: [Key; 9] = [
        Key::Control,
        Key::Alt,
        Key::Shift,
        Key::Space,
        Key::Meta,
        Key::Tab,
        Key::Escape,
        Key::CapsLock,
        key,
    ];
    assert(held@ == held_keys(key));
    let mut events: Vec<KeyEvent> = Vec::new();
    for i in 0..9
        invariant
            held@ == held_keys(key),
            events@ == held_keys(key).take(i as int).map_values(
                |k: Key| KeyEvent { key: k, direction: Direction::Release },
            ),
    {
        events.push(KeyEvent { key: held[i], direction: Direction::Release });
        assert(held_keys(key).take(i + 1) =~= held_keys(key).take(i as int).push(held[i as int]));
        assert(events@ =~= held_keys(key).take(i + 1).map_values(
            |k: Key| KeyEvent { key: k, direction: Direction::Release },
        ));
    }
    assert(held_keys(key).take(9) =~= held_keys(key));
    events.push(KeyEvent { key: Key::Control, direction: Direction::Press });
    events.push(KeyEvent { key: key, direction: Direction::Click });
    events.push(KeyEvent { key: Key::Control, direction: Direction::Release });
    assert(events@ =~= chord(key));
    events
}

/// The clipboard formats that are not memory blocks, so that their bytes
/// cannot be copied: CF_BITMAP (2), CF_METAFILEPICT (3), CF_PALETTE (9) and
/// CF_ENHMETAFILE (14) are GDI handles, CF_OWNERDISPLAY (0x80) has no data,
/// and CF_DSPBITMAP (0x82), CF_DSPMETAFILEPICT (0x83) and CF_DSPENHMETAFILE
/// (0x8E) are the owner-drawn equivalents.
pub open spec fn is_non_global_format(format: u32) -> bool {
    format == 2 || format == 3 || format == 9 || format == 14 || format == 0x80 || format == 0x82
        || format == 0x83 || format == 0x8e
}

/// A format whose data a snapshot keeps: a real format (the enumeration
/// cursor ends at 0) whose data is a memory block.
pub open spec fn keeps_format(format: u32) -> bool {
    format != 0 && !is_non_global_format(format)
}

/// Every entry is a kept format with at least one byte of data.
pub open spec fn memory_blocks_only(entries: Seq<(u32, Seq<u8>)>) -> bool {
    forall|i: int|
        0 <= i < entries.len() ==> keeps_format(#[trigger] entries[i].0) && entries[i].1.len() > 0
}

/// What to do with a format that the clipboard's enumeration cursor
/// produced.
#[derive(Clone, Copy, Debug, PartialEq, Eq, Structural)]
pub enum FormatAction {
    /// The cursor is exhausted.
    Stop,
    /// Not a memory block: leave it behind and ask for the next format.
    Skip,
    /// Read the format's data and record it.
    Read,
}

/// The action for a format (see `FormatAction`).
pub open spec fn format_action_for(format: u32) -> FormatAction {
    if format == 0 {
        FormatAction::Stop
    } else if is_non_global_format(format) {
        FormatAction::Skip
    } else {
        FormatAction::Read
    }
}

/// Whether `format` is one of the formats that are not memory blocks.
fn non_global_format(format: u32) -> (b: bool)
    ensures
        b == is_non_global_format(format),
{
    format == 2 || format == 3 || format == 9 || format == 14 || format == 0x80 || format == 0x82
        || format == 0x83 || format == 0x8e
}

/// `entries` after recording what reading `format` gave (`None` where
/// nothing could be read): only a kept format with at least one byte is
/// added, at the end.
pub open spec fn recorded(entries: Seq<(u32, Seq<u8>)>, format: u32, block: Option<Seq<u8>>) -> Seq<(u32, Seq<u8>)> {
    match block {
        Some(b) => if keeps_format(format) && b.len() > 0 {
            entries.push((format, b))
        } else {
            entries
        },
        None => entries,
    }
}

/// The snapshot that taking one gives, from what the clipboard's enumeration
/// produced before it stopped: each format in the order enumerated, with what
/// reading it gave (formats that are not memory blocks are never read, and
/// are left out just the same).
pub open spec fn snapshot_of(reads: Seq<(u32, Option<Seq<u8>>)>) -> Seq<(u32, Seq<u8>)>
    decreases reads.len(),
{
    if reads.len() == 0 {
        Seq::empty()
    } else {
        recorded(snapshot_of(reads.drop_last()), reads.last().0, reads.last().1)
    }
}

/// Everything the clipboard held, as raw bytes per format, in the order in
/// which the clipboard enumerated them.
pub struct Snapshot {
    entries: Vec<(u32, Vec<u8>)>,
}

impl View for Snapshot {
    type V = Seq<(u32, Seq<u8>)>;

    closed spec fn view(&self) -> Seq<(u32, Seq<u8>)> {
        self.entries@.map_values(|e: (u32, Vec<u8>)| (e.0, e.1@))
    }
}

impl Snapshot {
    #[verifier::type_invariant]
    spec fn only_memory_blocks(self) -> bool {
        memory_blocks_only(self@)
    }

    /// A snapshot of an empty clipboard; restoring it leaves the clipboard
    /// empty.
    pub fn empty() -> (s: Snapshot)
        ensures
            s@ == Seq::<(u32, Seq<u8>)>::empty(),
    {
        let s = Snapshot { entries: Vec::new() };
        assert(s@ =~= Seq::<(u32, Seq<u8>)>::empty());
        s
    }

    /// What to do with `format`, just produced by the enumeration cursor
    /// (see `format_action_for`).
    pub fn format_action(format: u32) -> (a: FormatAction)
        ensures
            a == format_action_for(format),
    {
        if format == 0 {
            FormatAction::Stop
        } else if non_global_format(format) {
            FormatAction::Skip
        } else {
            FormatAction::Read
        }
    }

    /// Records what reading `format` gave: `None` where the clipboard had no
    /// data behind it or the block could not be locked. Only a kept format
    /// with at least one byte is recorded; an empty block is also how a
    /// handle outside the global heap reads, and there is nothing to copy.
    pub fn record(&mut self, format: u32, block: Option<Vec<u8>>)
        ensures
            final(self)@ == recorded(
                old(self)@,
                format,
                match block {
                    Some(b) => Some(b@),
                    None => None,
                },
            ),
            memory_blocks_only(final(self)@),
            (match block {
                Some(b) => format != 0 && format != 2 && format != 3 && format != 9 && format != 14
                    && format != 0x80 && format != 0x82 && format != 0x83 && format != 0x8e
                    && b@.len() > 0 ==> final(self)@ == old(self)@.push((format, b@)),
                None => final(self)@ == old(self)@,
            }),
    {
        proof {
            use_type_invariant(&*self);
        }
        if let Some(bytes) = block {
            if format != 0 && !non_global_format(format) && bytes.len() > 0 {
                let ghost before = self@;
                let ghost entry = (format, bytes@);
                let mut entries = Vec::new();
                std::mem::swap(&mut entries, &mut self.entries);
                entries.push((format, bytes));
                assert(entries@.map_values(|e: (u32, Vec<u8>)| (e.0, e.1@)) =~= before.push(entry));
                self.entries = entries;
            }
        }
        proof {
            use_type_invariant(&*self);
        }
    }

    /// The entries, in enumeration order, for giving them back to the
    /// clipboard.
    pub fn entries(&self) -> (e: &[(u32, Vec<u8>)])
        ensures
            e@.map_values(|x: (u32, Vec<u8>)| (x.0, x.1@)) == self@,
            memory_blocks_only(self@),
    {
        proof {
            use_type_invariant(self);
        }
        self.entries.as_slice()
    }
}

/// How many times opening the clipboard is tried before giving up: another
/// process can hold it open, briefly, whenever it is copying.
pub const CLIPBOARD_OPEN_ATTEMPTS: u32 = 10;

/// The pause between two tries at opening the clipboard, in milliseconds.
pub const CLIPBOARD_OPEN_RETRY_MS: u64 = 10;

/// What to do after a try at opening the clipboard.
#[derive(Clone, Copy, Debug, PartialEq, Eq, Structural)]
pub enum OpenStep {
    /// The clipboard is open (and owed a close).
    Opened,
    /// Wait this many milliseconds, then try again.
    PauseThenRetry(u64),
    /// Every try failed: the clipboard could not be opened.
    GiveUp,
}

/// Tries at opening the clipboard, counted.
#[derive(Clone, Copy, Debug, PartialEq, Eq, Structural)]
pub struct OpenRetry {
    pub tries: u32,
}

/// The step after try number `tries` (counted from 1) succeeded or not:
/// no pause follows the last try.
pub open spec fn open_step_after(tries: u32, opened: bool) -> OpenStep {
    if opened {
        OpenStep::Opened
    } else if tries < CLIPBOARD_OPEN_ATTEMPTS {
        OpenStep::PauseThenRetry(CLIPBOARD_OPEN_RETRY_MS)
    } else {
        OpenStep::GiveUp
    }
}

impl OpenRetry {
    /// Before the first try.
    pub fn new() -> (r: OpenRetry)
        ensures
            r.tries == 0,
    {
        OpenRetry { tries: 0 }
    }

    /// Accounts for one more try, which did or did not open the clipboard.
    pub fn step(self, opened: bool) -> (r: (OpenRetry, OpenStep))
        ensures
            r.0.tries == if self.tries < CLIPBOARD_OPEN_ATTEMPTS { self.tries + 1 } else { self.tries as int },
            r.1 == open_step_after(r.0.tries, opened),
    {
        let tries: u32 = if self.tries < CLIPBOARD_OPEN_ATTEMPTS { self.tries + 1 } else { self.tries };
        let next = if opened {
            OpenStep::Opened
        } else if tries < CLIPBOARD_OPEN_ATTEMPTS {
            OpenStep::PauseThenRetry(CLIPBOARD_OPEN_RETRY_MS)
        } else {
            OpenStep::GiveUp
        };
        (OpenRetry { tries }, next)
    }
}

/// The outcome of trying to open the clipboard, when the first `failures`
/// tries fail and the next one (if any) succeeds: how many tries were made,
/// how many pauses came between them, and whether it opened.
pub open spec fn open_run(retry: OpenRetry, failures: nat, fuel: nat) -> (nat, nat, bool)
    decreases fuel,
{
    if fuel == 0 {
        (0, 0, false)
    } else {
        let (r, s) = retry.step_spec(failures == 0);
        match s {
            OpenStep::Opened => (1, 0, true),
            OpenStep::GiveUp => (1, 0, false),
            OpenStep::PauseThenRetry(_) => {
                let (t, p, o) = open_run(r, (failures - 1) as nat, (fuel - 1) as nat);
                (t + 1, p + 1, o)
            },
        }
    }
}

impl OpenRetry {
    /// What `step` gives.
    pub open spec fn step_spec(self, opened: bool) -> (OpenRetry, OpenStep) {
        let tries: u32 = if self.tries < CLIPBOARD_OPEN_ATTEMPTS { (self.tries + 1) as u32 } else { self.tries };
        (OpenRetry { tries }, open_step_after(tries, opened))
    }
}

/// Opening the clipboard succeeds exactly when one of the first
/// `CLIPBOARD_OPEN_ATTEMPTS` tries does; it stops at the first success, and
/// never makes more than that many tries however long it is let run, with a
/// pause between two tries and none after the last.
pub proof fn open_tries_are_bounded(failures: nat, fuel: nat)
    requires
        fuel >= CLIPBOARD_OPEN_ATTEMPTS,
    ensures
        ({
            let (tries, pauses, opened) = open_run(OpenRetry { tries: 0 }, failures, fuel);
            &&& opened <==> failures < CLIPBOARD_OPEN_ATTEMPTS
            &&& tries == if failures < CLIPBOARD_OPEN_ATTEMPTS { failures + 1 } else { CLIPBOARD_OPEN_ATTEMPTS as nat }
            &&& pauses + 1 == tries
        }),
{
    lemma_open_run(OpenRetry { tries: 0 }, failures, fuel);
}

proof fn lemma_open_run(retry: OpenRetry, failures: nat, fuel: nat)
    requires
        retry.tries < CLIPBOARD_OPEN_ATTEMPTS,
        retry.tries + fuel >= CLIPBOARD_OPEN_ATTEMPTS,
    ensures
        ({
            let left = (CLIPBOARD_OPEN_ATTEMPTS - retry.tries) as nat;
            let (tries, pauses, opened) = open_run(retry, failures, fuel);
            &&& opened <==> failures < left
            &&& tries == if failures < left { failures + 1 } else { left }
            &&& pauses + 1 == tries
        }),
    decreases fuel,
{
    let (r, s) = retry.step_spec(failures == 0);
    if s is PauseThenRetry {
        lemma_open_run(r, (failures - 1) as nat, (fuel - 1) as nat);
    }
}

/// How long the foreground application is given to answer a synthesised
/// Ctrl+C, in milliseconds.
pub const COPY_TIMEOUT_MS: u64 = 250;

/// How often the clipboard is looked at while waiting, in milliseconds.
pub const COPY_POLL_INTERVAL_MS: u64 = 5;

/// Where a copy of the selection stands.
#[derive(Clone, Copy, Debug, PartialEq, Eq, Structural)]
pub enum CopyStage {
    /// Waiting for the clipboard's sequence number before the copy.
    ReadingSequence,
    /// Waiting to hear whether Ctrl+C was sent.
    SendingChord { before: u32 },
    /// Watching the sequence number, which changes when the clipboard is
    /// closed after a write.
    Watching { before: u32 },
    /// Done.
    Finished,
}

/// A reply while copying.
#[derive(Clone, Copy, Debug, PartialEq, Eq, Structural)]
pub enum CopyEvent {
    /// The clipboard's sequence number.
    Sequence(u32),
    /// Whether every key event of the chord was sent.
    ChordSent(bool),
    /// After a pause: the clipboard's sequence number, and the milliseconds
    /// since the chord was sent.
    Poll { sequence: u32, elapsed_ms: u64 },
}

/// What to do next while copying.
#[derive(Clone, Copy, Debug, PartialEq, Eq, Structural)]
pub enum CopyAction {
    /// Read the clipboard's sequence number.
    ReadSequence,
    /// Send the chord Ctrl + this key (see `chord_events`), and start the
    /// clock once it is sent.
    SendChord(Key),
    /// Pause this many milliseconds, then read the sequence number and the
    /// time since the chord was sent.
    WaitThenPoll(u64),
    /// Stop: whether something was copied.
    Return(bool),
}

/// How a copy goes on after a reply. The chord failing (no desktop to send
/// to, a locked session, an elevated window) is no reason to fail loudly:
/// nothing was copied. The copy has happened as soon as the sequence number
/// moves; it is given up once the deadline has passed without that.
pub open spec fn copy_next(stage: CopyStage, event: CopyEvent) -> (CopyStage, CopyAction) {
    match (stage, event) {
        (CopyStage::ReadingSequence, CopyEvent::Sequence(n)) => (
            CopyStage::SendingChord { before: n },
            CopyAction::SendChord(Key::C),
        ),
        (CopyStage::SendingChord { before }, CopyEvent::ChordSent(sent)) => if sent {
            (CopyStage::Watching { before }, CopyAction::WaitThenPoll(COPY_POLL_INTERVAL_MS))
        } else {
            (CopyStage::Finished, CopyAction::Return(false))
        },
        (CopyStage::Watching { before }, CopyEvent::Poll { sequence, elapsed_ms }) => if sequence
            != before {
            (CopyStage::Finished, CopyAction::Return(true))
        } else if elapsed_ms >= COPY_TIMEOUT_MS {
            (CopyStage::Finished, CopyAction::Return(false))
        } else {
            (CopyStage::Watching { before }, CopyAction::WaitThenPoll(COPY_POLL_INTERVAL_MS))
        },
        _ => (CopyStage::Finished, CopyAction::Return(false)),
    }
}

/// Starts copying the selection to the clipboard with a synthesised Ctrl+C:
/// the clipboard's sequence number is read first.
pub fn copy() -> (r: (CopyStage, CopyAction))
    ensures
        r == (CopyStage::ReadingSequence, CopyAction::ReadSequence),
{
    (CopyStage::ReadingSequence, CopyAction::ReadSequence)
}

/// Goes on copying after a reply (see `copy_next`).
pub fn copy_step(stage: CopyStage, event: CopyEvent) -> (r: (CopyStage, CopyAction))
    ensures
        r == copy_next(stage, event),
{
    match (stage, event) {
        (CopyStage::ReadingSequence, CopyEvent::Sequence(n)) => (
            CopyStage::SendingChord { before: n },
            CopyAction::SendChord(Key::C),
        ),
        (CopyStage::SendingChord { before }, CopyEvent::ChordSent(sent)) => {
            if sent {
                (CopyStage::Watching { before }, CopyAction::WaitThenPoll(COPY_POLL_INTERVAL_MS))
            } else {
                (CopyStage::Finished, CopyAction::Return(false))
            }
        },
        (CopyStage::Watching { before }, CopyEvent::Poll { sequence, elapsed_ms }) => {
            if sequence != before {
                (CopyStage::Finished, CopyAction::Return(true))
            } else if elapsed_ms >= COPY_TIMEOUT_MS {
                (CopyStage::Finished, CopyAction::Return(false))
            } else {
                (CopyStage::Watching { before }, CopyAction::WaitThenPoll(COPY_POLL_INTERVAL_MS))
            }
        },
        _ => (CopyStage::Finished, CopyAction::Return(false)),
    }
}

/// What watching the sequence number concludes from a series of polls
/// (sequence number, milliseconds since the chord): copied at the first poll
/// that sees it moved, given up at the first that sees the deadline passed,
/// and undecided while the polls last.
pub open spec fn watch(before: u32, polls: Seq<(u32, u64)>) -> Option<bool>
    decreases polls.len(),
{
    if polls.len() == 0 {
        None
    } else if polls[0].0 != before {
        Some(true)
    } else if polls[0].1 >= COPY_TIMEOUT_MS {
        Some(false)
    } else {
        watch(before, polls.drop_first())
    }
}

/// A copy, run against a clipboard whose sequence number is `before` when
/// first read, a chord that is sent or not, and the polls that follow: the
/// answer it returns, or `None` if it is still waiting when the polls run out.
pub open spec fn copy_run(
    stage: CopyStage,
    action: CopyAction,
    before: u32,
    chord_sent: bool,
    polls: Seq<(u32, u64)>,
    fuel: nat,
) -> Option<bool>
    decreases fuel,
{
    if fuel == 0 {
        None
    } else {
        match action {
            CopyAction::Return(copied) => Some(copied),
            CopyAction::ReadSequence => {
                let (s, a) = copy_next(stage, CopyEvent::Sequence(before));
                copy_run(s, a, before, chord_sent, polls, (fuel - 1) as nat)
            },
            CopyAction::SendChord(_) => {
                let (s, a) = copy_next(stage, CopyEvent::ChordSent(chord_sent));
                copy_run(s, a, before, chord_sent, polls, (fuel - 1) as nat)
            },
            CopyAction::WaitThenPoll(_) => if polls.len() == 0 {
                None
            } else {
                let (s, a) = copy_next(
                    stage,
                    CopyEvent::Poll { sequence: polls[0].0, elapsed_ms: polls[0].1 },
                );
                copy_run(s, a, before, chord_sent, polls.drop_first(), (fuel - 1) as nat)
            },
        }
    }
}

proof fn lemma_watching(before: u32, chord_sent: bool, polls: Seq<(u32, u64)>, fuel: nat)
    requires
        fuel > polls.len(),
    ensures
        copy_run(
            CopyStage::Watching { before },
            CopyAction::WaitThenPoll(COPY_POLL_INTERVAL_MS),
            before,
            chord_sent,
            polls,
            fuel,
        ) == watch(before, polls),
    decreases polls.len(),
{
    if polls.len() > 0 {
        lemma_watching(before, chord_sent, polls.drop_first(), (fuel - 1) as nat);
        if polls[0].0 != before || polls[0].1 >= COPY_TIMEOUT_MS {
            reveal_with_fuel(copy_run, 2);
        }
    }
}

/// A copy succeeds exactly when, after the chord was sent, the clipboard's
/// sequence number is seen to move before the deadline passes; a chord that
/// could not be sent copies nothing.
pub proof fn copy_succeeds_when_sequence_moves(before: u32, chord_sent: bool, polls: Seq<(u32, u64)>)
    ensures
        ({
            let (s, a) = (CopyStage::ReadingSequence, CopyAction::ReadSequence);
            copy_run(s, a, before, chord_sent, polls, polls.len() + 3) == if chord_sent {
                watch(before, polls)
            } else {
                Some(false)
            }
        }),
{
    reveal_with_fuel(copy_run, 3);
    if chord_sent {
        lemma_watching(before, chord_sent, polls, polls.len() + 1);
    }
}

/// The texts of the selected ranges, one after the other.
pub open spec fn concat_texts(parts: Seq<Seq<char>>) -> Seq<char>
    decreases parts.len(),
{
    if parts.len() == 0 {
        Seq::empty()
    } else {
        concat_texts(parts.drop_last()) + parts.last()
    }
}

/// The characters of each string.
pub open spec fn texts_view(parts: Seq<String>) -> Seq<Seq<char>> {
    parts.map_values(|p: String| p@)
}

/// What UI Automation's selection reads as: the text of every selected
/// range, in order, trimmed.
pub fn automation_text(ranges: &Vec<String>) -> (t: String)
    ensures
        t@ == trim(concat_texts(texts_view(ranges@))),
        ranges@.len() == 1 ==> t@ == trim(ranges@[0]@),
{
    let mut all = String::new();
    let mut i: usize = 0;
    while i < ranges.len()
        invariant
            i <= ranges.len(),
            all@ == concat_texts(texts_view(ranges@.take(i as int))),
        decreases ranges.len() - i,
    {
        all.append(ranges[i].as_str());
        assert(texts_view(ranges@.take(i + 1)).drop_last() =~= texts_view(ranges@.take(i as int)));
        i = i + 1;
    }
    assert(ranges@.take(ranges@.len() as int) =~= ranges@);
    proof {
        if ranges@.len() == 1 {
            assert(texts_view(ranges@) =~= seq![ranges@[0]@]);
            joining_keeps_every_character(Seq::empty(), Seq::empty(), ranges@[0]@);
        }
    }
    trim_str(all.as_str())
}

/// What reading the clipboard gave.
pub enum ClipboardRead {
    /// No clipboard could be had to read from.
    Unavailable,
    /// The clipboard held no text, or reading it failed.
    Failed,
    /// The clipboard's text.
    Text(String),
}

/// `ClipboardRead`, with its text as a sequence.
pub enum ClipboardReadView {
    Unavailable,
    Failed,
    Text(Seq<char>),
}

impl View for ClipboardRead {
    type V = ClipboardReadView;

    open spec fn view(&self) -> ClipboardReadView {
        match self {
            ClipboardRead::Unavailable => ClipboardReadView::Unavailable,
            ClipboardRead::Failed => ClipboardReadView::Failed,
            ClipboardRead::Text(t) => ClipboardReadView::Text(t@),
        }
    }
}

/// Where a read of the selection stands.
pub enum ReadStage {
    /// Waiting for the selected ranges from UI Automation (Edge, Chrome,
    /// UWP applications offer them).
    ReadingAutomation,
    /// Waiting for the clipboard's snapshot, taken before it is borrowed.
    TakingSnapshot,
    /// Waiting for the copy; the snapshot to give back is kept.
    Copying(Snapshot),
    /// Waiting for the clipboard's text; the snapshot to give back is kept.
    ReadingClipboard(Snapshot),
    /// Waiting for the clipboard to be given back; the text read is kept.
    Restoring(Option<String>),
    /// Done.
    Finished,
}

/// A reply while reading the selection.
pub enum ReadEvent {
    /// The texts of the selected ranges; `None` where UI Automation failed.
    Automation(Option<Vec<String>>),
    /// The clipboard's contents; `None` where they could not be read.
    SnapshotTaken(Option<Snapshot>),
    /// Whether the copy changed the clipboard (see `copy`).
    Copied(bool),
    /// What reading the clipboard's text gave.
    Clipboard(ClipboardRead),
    /// Whether giving the clipboard back succeeded.
    Restored(bool),
}

/// What to do next while reading the selection.
pub enum ReadAction {
    /// Ask UI Automation for the focused element's selected ranges.
    ReadAutomation,
    /// Take a snapshot of every format the clipboard holds.
    TakeSnapshot,
    /// Copy the selection to the clipboard (see `copy`).
    Copy,
    /// Read the clipboard's text.
    ReadClipboard,
    /// Put this snapshot back on the clipboard.
    Restore(Snapshot),
    /// Stop; this is the selected text.
    Return(String),
}

pub enum ReadStageView {
    ReadingAutomation,
    TakingSnapshot,
    Copying(Seq<(u32, Seq<u8>)>),
    ReadingClipboard(Seq<(u32, Seq<u8>)>),
    Restoring(Option<Seq<char>>),
    Finished,
}

pub enum ReadEventView {
    Automation(Option<Seq<Seq<char>>>),
    SnapshotTaken(Option<Seq<(u32, Seq<u8>)>>),
    Copied(bool),
    Clipboard(ClipboardReadView),
    Restored(bool),
}

pub enum ReadActionView {
    ReadAutomation,
    TakeSnapshot,
    Copy,
    ReadClipboard,
    Restore(Seq<(u32, Seq<u8>)>),
    Return(Seq<char>),
}

impl View for ReadStage {
    type V = ReadStageView;

    open spec fn view(&self) -> ReadStageView {
        match self {
            ReadStage::ReadingAutomation => ReadStageView::ReadingAutomation,
            ReadStage::TakingSnapshot => ReadStageView::TakingSnapshot,
            ReadStage::Copying(s) => ReadStageView::Copying(s@),
            ReadStage::ReadingClipboard(s) => ReadStageView::ReadingClipboard(s@),
            ReadStage::Restoring(Some(t)) => ReadStageView::Restoring(Some(t@)),
            ReadStage::Restoring(None) => ReadStageView::Restoring(None),
            ReadStage::Finished => ReadStageView::Finished,
        }
    }
}

impl View for ReadEvent {
    type V = ReadEventView;

    open spec fn view(&self) -> ReadEventView {
        match self {
            ReadEvent::Automation(Some(parts)) => ReadEventView::Automation(Some(texts_view(parts@))),
            ReadEvent::Automation(None) => ReadEventView::Automation(None),
            ReadEvent::SnapshotTaken(Some(s)) => ReadEventView::SnapshotTaken(Some(s@)),
            ReadEvent::SnapshotTaken(None) => ReadEventView::SnapshotTaken(None),
            ReadEvent::Copied(c) => ReadEventView::Copied(*c),
            ReadEvent::Clipboard(r) => ReadEventView::Clipboard(r@),
            ReadEvent::Restored(r) => ReadEventView::Restored(*r),
        }
    }
}

impl View for ReadAction {
    type V = ReadActionView;

    open spec fn view(&self) -> ReadActionView {
        match self {
            ReadAction::ReadAutomation => ReadActionView::ReadAutomation,
            ReadAction::TakeSnapshot => ReadActionView::TakeSnapshot,
            ReadAction::Copy => ReadActionView::Copy,
            ReadAction::ReadClipboard => ReadActionView::ReadClipboard,
            ReadAction::Restore(s) => ReadActionView::Restore(s@),
            ReadAction::Return(t) => ReadActionView::Return(t@),
        }
    }
}

/// How a read of the selection goes on after a reply. UI Automation is
/// asked first; only when it gives no text is the clipboard borrowed: its
/// contents are snapshotted (a clipboard that cannot be read is no reason to
/// give up, and its snapshot is empty), the selection is copied onto it and
/// read back, and the snapshot is restored whatever the read gave: returning
/// early on an unreadable clipboard would leave the user's own clipboard
/// replaced by the selection. When nothing was copied the clipboard still
/// holds the user's data and is left alone. A reply that the stage did not
/// ask for ends the read with nothing.
pub open spec fn read_next(stage: ReadStageView, event: ReadEventView) -> (ReadStageView, ReadActionView) {
    match (stage, event) {
        (ReadStageView::ReadingAutomation, ReadEventView::Automation(parts)) => {
            let text = match parts {
                Some(p) => trim(concat_texts(p)),
                None => Seq::empty(),
            };
            if text.len() > 0 {
                (ReadStageView::Finished, ReadActionView::Return(text))
            } else {
                (ReadStageView::TakingSnapshot, ReadActionView::TakeSnapshot)
            }
        },
        (ReadStageView::TakingSnapshot, ReadEventView::SnapshotTaken(taken)) => (
            ReadStageView::Copying(
                match taken {
                    Some(s) => s,
                    None => Seq::empty(),
                },
            ),
            ReadActionView::Copy,
        ),
        (ReadStageView::Copying(s), ReadEventView::Copied(copied)) => if copied {
            (ReadStageView::ReadingClipboard(s), ReadActionView::ReadClipboard)
        } else {
            (ReadStageView::Finished, ReadActionView::Return(Seq::empty()))
        },
        (ReadStageView::ReadingClipboard(s), ReadEventView::Clipboard(r)) => match r {
            ClipboardReadView::Unavailable | ClipboardReadView::Failed => (
                ReadStageView::Restoring(None),
                ReadActionView::Restore(s),
            ),
            ClipboardReadView::Text(t) => (
                ReadStageView::Restoring(Some(t)),
                ReadActionView::Restore(s),
            ),
        },
        (ReadStageView::Restoring(t), ReadEventView::Restored(_)) => (
            ReadStageView::Finished,
            ReadActionView::Return(
                match t {
                    Some(text) => trim(text),
                    None => Seq::empty(),
                },
            ),
        ),
        _ => (ReadStageView::Finished, ReadActionView::Return(Seq::empty())),
    }
}

/// Starts reading the selection: UI Automation is asked first.
pub fn get_text() -> (r: (ReadStage, ReadAction))
    ensures
        r.0@ == ReadStageView::ReadingAutomation,
        r.1@ == ReadActionView::ReadAutomation,
{
    (ReadStage::ReadingAutomation, ReadAction::ReadAutomation)
}

/// Goes on reading the selection after a reply (see `read_next`).
pub fn get_text_step(stage: ReadStage, event: ReadEvent) -> (r: (ReadStage, ReadAction))
    ensures
        (r.0@, r.1@) == read_next(stage@, event@),
{
    match (stage, event) {
        (ReadStage::ReadingAutomation, ReadEvent::Automation(parts)) => {
            let text = match parts {
                Some(p) => automation_text(&p),
                None => String::new(),
            };
            if text.as_str().is_empty() {
                (ReadStage::TakingSnapshot, ReadAction::TakeSnapshot)
            } else {
                (ReadStage::Finished, ReadAction::Return(text))
            }
        },
        (ReadStage::TakingSnapshot, ReadEvent::SnapshotTaken(taken)) => {
            let snapshot = match taken {
                Some(s) => s,
                None => Snapshot::empty(),
            };
            (ReadStage::Copying(snapshot), ReadAction::Copy)
        },
        (ReadStage::Copying(s), ReadEvent::Copied(copied)) => {
            if copied {
                (ReadStage::ReadingClipboard(s), ReadAction::ReadClipboard)
            } else {
                (ReadStage::Finished, ReadAction::Return(String::new()))
            }
        },
        (ReadStage::ReadingClipboard(s), ReadEvent::Clipboard(r)) => match r {
            ClipboardRead::Unavailable | ClipboardRead::Failed => (
                ReadStage::Restoring(None),
                ReadAction::Restore(s),
            ),
            ClipboardRead::Text(t) => (ReadStage::Restoring(Some(t)), ReadAction::Restore(s)),
        },
        (ReadStage::Restoring(t), ReadEvent::Restored(_)) => {
            let text = match t {
                Some(text) => trim_str(text.as_str()),
                None => String::new(),
            };
            (ReadStage::Finished, ReadAction::Return(text))
        },
        _ => (ReadStage::Finished, ReadAction::Return(String::new())),
    }
}

/// What the desktop would answer while the selection is read.
pub struct ReadDesktop {
    /// The selected ranges' texts, or `None` where UI Automation fails.
    pub automation: Option<Seq<Seq<char>>>,
    /// The clipboard's contents, or `None` where they cannot be read.
    pub clipboard_before: Option<Seq<(u32, Seq<u8>)>>,
    /// Whether the synthesised copy changes the clipboard.
    pub copied: bool,
    /// What reading the clipboard's text gives after the copy.
    pub clipboard_text: ClipboardReadView,
    /// Whether giving the clipboard back succeeds.
    pub restored: bool,
}

/// The desktop's reply to an action.
pub open spec fn read_reply(action: ReadActionView, desktop: ReadDesktop) -> ReadEventView {
    match action {
        ReadActionView::ReadAutomation => ReadEventView::Automation(desktop.automation),
        ReadActionView::TakeSnapshot => ReadEventView::SnapshotTaken(desktop.clipboard_before),
        ReadActionView::Copy => ReadEventView::Copied(desktop.copied),
        ReadActionView::ReadClipboard => ReadEventView::Clipboard(desktop.clipboard_text),
        _ => ReadEventView::Restored(desktop.restored),
    }
}

/// The actions a read issues, from `action` on, up to and including the one
/// that returns (or until `fuel` runs out).
pub open spec fn read_trace(stage: ReadStageView, action: ReadActionView, desktop: ReadDesktop, fuel: nat) -> Seq<ReadActionView>
    decreases fuel,
{
    if fuel == 0 {
        Seq::empty()
    } else if action is Return {
        seq![action]
    } else {
        let (s, a) = read_next(stage, read_reply(action, desktop));
        seq![action] + read_trace(s, a, desktop, (fuel - 1) as nat)
    }
}

/// What the clipboard held before it was borrowed, as far as it could be read.
pub open spec fn clipboard_held(desktop: ReadDesktop) -> Seq<(u32, Seq<u8>)> {
    match desktop.clipboard_before {
        Some(s) => s,
        None => Seq::empty(),
    }
}

/// The text that UI Automation offers, trimmed (empty where it fails).
pub open spec fn automation_selection(desktop: ReadDesktop) -> Seq<char> {
    match desktop.automation {
        Some(p) => trim(concat_texts(p)),
        None => Seq::empty(),
    }
}

/// Everything a read of the selection does, in order, against a desktop.
pub open spec fn expected_read(desktop: ReadDesktop) -> Seq<ReadActionView> {
    let auto = automation_selection(desktop);
    if auto.len() > 0 {
        seq![ReadActionView::ReadAutomation, ReadActionView::Return(auto)]
    } else {
        let borrow = seq![ReadActionView::ReadAutomation, ReadActionView::TakeSnapshot, ReadActionView::Copy];
        if !desktop.copied {
            borrow.push(ReadActionView::Return(Seq::empty()))
        } else {
            match desktop.clipboard_text {
                ClipboardReadView::Unavailable | ClipboardReadView::Failed => borrow.push(ReadActionView::ReadClipboard).push(
                    ReadActionView::Restore(clipboard_held(desktop)),
                ).push(ReadActionView::Return(Seq::empty())),
                ClipboardReadView::Text(t) => borrow.push(ReadActionView::ReadClipboard).push(
                    ReadActionView::Restore(clipboard_held(desktop)),
                ).push(ReadActionView::Return(trim(t))),
            }
        }
    }
}

/// A read of the selection, started by `get_text`, does exactly what
/// `expected_read` lists: the text comes from UI Automation when it offers
/// any, else from the clipboard after a copy; the clipboard is touched only
/// when UI Automation gave nothing, and whenever the selection was copied
/// onto it, what it held before is put back, after the read (whether or not
/// it succeeded) and before the answer.
pub proof fn read_follows_expected(desktop: ReadDesktop)
    ensures
        read_trace(
            ReadStageView::ReadingAutomation,
            ReadActionView::ReadAutomation,
            desktop,
            6,
        ) == expected_read(desktop),
{
    reveal_with_fuel(read_trace, 7);
    assert(read_trace(ReadStageView::ReadingAutomation, ReadActionView::ReadAutomation, desktop, 6)
        =~= expected_read(desktop));
}

/// How long the pasted text is left on the clipboard before the user's own
/// contents go back, in milliseconds. Nothing tells when the target
/// application has read it; restoring opens the clipboard with retries too,
/// which waits out an application still holding it to read.
pub const PASTE_SETTLE_MS: u64 = 200;

/// Where a replacement of the selection stands.
pub enum PasteStage {
    /// Waiting for the clipboard's snapshot; the text to paste is kept.
    TakingSnapshot(String),
    /// Waiting for the text to be put on the clipboard.
    SettingClipboard(Snapshot),
    /// Waiting for Ctrl+V to be sent.
    Pasting(Snapshot),
    /// Waiting out the settle delay; whether the paste was sent is kept.
    Settling(Snapshot, bool),
    /// Waiting for the clipboard to be given back.
    Restoring(bool),
    /// Done.
    Finished,
}

/// A reply while replacing the selection.
pub enum PasteEvent {
    /// The clipboard's contents; `None` where they could not be read.
    SnapshotTaken(Option<Snapshot>),
    /// Whether the text was put on the clipboard.
    ClipboardSet(bool),
    /// Whether every key event of Ctrl+V was sent.
    Pasted(bool),
    /// The settle delay is over.
    Settled,
    /// Whether giving the clipboard back succeeded.
    Restored(bool),
}

/// What to do next while replacing the selection.
pub enum PasteAction {
    /// Take a snapshot of every format the clipboard holds.
    TakeSnapshot,
    /// Put this text on the clipboard.
    SetClipboard(String),
    /// Send the chord Ctrl + this key (see `chord_events`).
    Paste(Key),
    /// Wait this many milliseconds.
    Settle(u64),
    /// Put this snapshot back on the clipboard.
    Restore(Snapshot),
    /// Stop: whether the paste was sent.
    Return(bool),
}

pub enum PasteStageView {
    TakingSnapshot(Seq<char>),
    SettingClipboard(Seq<(u32, Seq<u8>)>),
    Pasting(Seq<(u32, Seq<u8>)>),
    Settling(Seq<(u32, Seq<u8>)>, bool),
    Restoring(bool),
    Finished,
}

pub enum PasteEventView {
    SnapshotTaken(Option<Seq<(u32, Seq<u8>)>>),
    ClipboardSet(bool),
    Pasted(bool),
    Settled,
    Restored(bool),
}

pub enum PasteActionView {
    TakeSnapshot,
    SetClipboard(Seq<char>),
    Paste(Key),
    Settle(u64),
    Restore(Seq<(u32, Seq<u8>)>),
    Return(bool),
}

impl View for PasteStage {
    type V = PasteStageView;

    open spec fn view(&self) -> PasteStageView {
        match self {
            PasteStage::TakingSnapshot(t) => PasteStageView::TakingSnapshot(t@),
            PasteStage::SettingClipboard(s) => PasteStageView::SettingClipboard(s@),
            PasteStage::Pasting(s) => PasteStageView::Pasting(s@),
            PasteStage::Settling(s, p) => PasteStageView::Settling(s@, *p),
            PasteStage::Restoring(p) => PasteStageView::Restoring(*p),
            PasteStage::Finished => PasteStageView::Finished,
        }
    }
}

impl View for PasteEvent {
    type V = PasteEventView;

    open spec fn view(&self) -> PasteEventView {
        match self {
            PasteEvent::SnapshotTaken(Some(s)) => PasteEventView::SnapshotTaken(Some(s@)),
            PasteEvent::SnapshotTaken(None) => PasteEventView::SnapshotTaken(None),
            PasteEvent::ClipboardSet(b) => PasteEventView::ClipboardSet(*b),
            PasteEvent::Pasted(b) => PasteEventView::Pasted(*b),
            PasteEvent::Settled => PasteEventView::Settled,
            PasteEvent::Restored(b) => PasteEventView::Restored(*b),
        }
    }
}

impl View for PasteAction {
    type V = PasteActionView;

    open spec fn view(&self) -> PasteActionView {
        match self {
            PasteAction::TakeSnapshot => PasteActionView::TakeSnapshot,
            PasteAction::SetClipboard(t) => PasteActionView::SetClipboard(t@),
            PasteAction::Paste(k) => PasteActionView::Paste(*k),
            PasteAction::Settle(ms) => PasteActionView::Settle(*ms),
            PasteAction::Restore(s) => PasteActionView::Restore(s@),
            PasteAction::Return(b) => PasteActionView::Return(*b),
        }
    }
}

/// How a replacement goes on after a reply. The clipboard is borrowed for
/// the length of a paste: snapshotted (an empty snapshot where it cannot be
/// read), given the text, pasted with Ctrl+V, left to settle, and given
/// back. Where the text could not be put on the clipboard nothing is pasted
/// and the clipboard is left as it is. The answer is whether Ctrl+V was
/// sent. A reply that the stage did not ask for ends with `false`.
pub open spec fn paste_next(stage: PasteStageView, event: PasteEventView) -> (PasteStageView, PasteActionView) {
    match (stage, event) {
        (PasteStageView::TakingSnapshot(text), PasteEventView::SnapshotTaken(taken)) => (
            PasteStageView::SettingClipboard(
                match taken {
                    Some(s) => s,
                    None => Seq::empty(),
                },
            ),
            PasteActionView::SetClipboard(text),
        ),
        (PasteStageView::SettingClipboard(s), PasteEventView::ClipboardSet(set)) => if set {
            (PasteStageView::Pasting(s), PasteActionView::Paste(Key::V))
        } else {
            (PasteStageView::Finished, PasteActionView::Return(false))
        },
        (PasteStageView::Pasting(s), PasteEventView::Pasted(pasted)) => (
            PasteStageView::Settling(s, pasted),
            PasteActionView::Settle(PASTE_SETTLE_MS),
        ),
        (PasteStageView::Settling(s, pasted), PasteEventView::Settled) => (
            PasteStageView::Restoring(pasted),
            PasteActionView::Restore(s),
        ),
        (PasteStageView::Restoring(pasted), PasteEventView::Restored(_)) => (
            PasteStageView::Finished,
            PasteActionView::Return(pasted),
        ),
        _ => (PasteStageView::Finished, PasteActionView::Return(false)),
    }
}

/// Starts replacing the current selection with `text`, by way of the
/// clipboard and a synthesised Ctrl+V: the clipboard is snapshotted first.
pub fn set_text(text: &str) -> (r: (PasteStage, PasteAction))
    ensures
        r.0@ == PasteStageView::TakingSnapshot(text@),
        r.1@ == PasteActionView::TakeSnapshot,
{
    (PasteStage::TakingSnapshot(text.to_owned()), PasteAction::TakeSnapshot)
}

/// Goes on replacing the selection after a reply (see `paste_next`).
pub fn set_text_step(stage: PasteStage, event: PasteEvent) -> (r: (PasteStage, PasteAction))
    ensures
        (r.0@, r.1@) == paste_next(stage@, event@),
{
    match (stage, event) {
        (PasteStage::TakingSnapshot(text), PasteEvent::SnapshotTaken(taken)) => {
            let snapshot = match taken {
                Some(s) => s,
                None => Snapshot::empty(),
            };
            (PasteStage::SettingClipboard(snapshot), PasteAction::SetClipboard(text))
        },
        (PasteStage::SettingClipboard(s), PasteEvent::ClipboardSet(set)) => {
            if set {
                (PasteStage::Pasting(s), PasteAction::Paste(Key::V))
            } else {
                (PasteStage::Finished, PasteAction::Return(false))
            }
        },
        (PasteStage::Pasting(s), PasteEvent::Pasted(pasted)) => (
            PasteStage::Settling(s, pasted),
            PasteAction::Settle(PASTE_SETTLE_MS),
        ),
        (PasteStage::Settling(s, pasted), PasteEvent::Settled) => (
            PasteStage::Restoring(pasted),
            PasteAction::Restore(s),
        ),
        (PasteStage::Restoring(pasted), PasteEvent::Restored(_)) => (
            PasteStage::Finished,
            PasteAction::Return(pasted),
        ),
        _ => (PasteStage::Finished, PasteAction::Return(false)),
    }
}

/// What the desktop would answer while the selection is replaced.
pub struct PasteDesktop {
    /// The clipboard's contents, or `None` where they cannot be read.
    pub clipboard_before: Option<Seq<(u32, Seq<u8>)>>,
    /// Whether putting the text on the clipboard succeeds.
    pub set: bool,
    /// Whether Ctrl+V is sent.
    pub pasted: bool,
    /// Whether giving the clipboard back succeeds.
    pub restored: bool,
}

/// The desktop's reply to an action.
pub open spec fn paste_reply(action: PasteActionView, desktop: PasteDesktop) -> PasteEventView {
    match action {
        PasteActionView::TakeSnapshot => PasteEventView::SnapshotTaken(desktop.clipboard_before),
        PasteActionView::SetClipboard(_) => PasteEventView::ClipboardSet(desktop.set),
        PasteActionView::Paste(_) => PasteEventView::Pasted(desktop.pasted),
        PasteActionView::Settle(_) => PasteEventView::Settled,
        _ => PasteEventView::Restored(desktop.restored),
    }
}

/// The actions a replacement issues, from `action` on, up to and including
/// the one that returns (or until `fuel` runs out).
pub open spec fn paste_trace(stage: PasteStageView, action: PasteActionView, desktop: PasteDesktop, fuel: nat) -> Seq<PasteActionView>
    decreases fuel,
{
    if fuel == 0 {
        Seq::empty()
    } else if action is Return {
        seq![action]
    } else {
        let (s, a) = paste_next(stage, paste_reply(action, desktop));
        seq![action] + paste_trace(s, a, desktop, (fuel - 1) as nat)
    }
}

/// Everything a replacement of the selection with `text` does, in order,
/// against a desktop.
pub open spec fn expected_paste(text: Seq<char>, desktop: PasteDesktop) -> Seq<PasteActionView> {
    let start = seq![PasteActionView::TakeSnapshot, PasteActionView::SetClipboard(text)];
    if !desktop.set {
        start.push(PasteActionView::Return(false))
    } else {
        start + seq![
            PasteActionView::Paste(Key::V),
            PasteActionView::Settle(PASTE_SETTLE_MS),
            PasteActionView::Restore(
                match desktop.clipboard_before {
                    Some(s) => s,
                    None => Seq::empty(),
                },
            ),
            PasteActionView::Return(desktop.pasted),
        ]
    }
}

/// A replacement, started by `set_text`, does exactly what `expected_paste`
/// lists: the clipboard is snapshotted before it is given the text, and once
/// the text is on it, it gets back what it held, only after Ctrl+V and the
/// settle delay; the answer is whether Ctrl+V was sent.
pub proof fn paste_follows_expected(text: Seq<char>, desktop: PasteDesktop)
    ensures
        paste_trace(
            PasteStageView::TakingSnapshot(text),
            PasteActionView::TakeSnapshot,
            desktop,
            6,
        ) == expected_paste(text, desktop),
{
    reveal_with_fuel(paste_trace, 7);
    assert(paste_trace(PasteStageView::TakingSnapshot(text), PasteActionView::TakeSnapshot, desktop, 6)
        =~= expected_paste(text, desktop));
}

/// Taking a snapshot keeps only memory blocks with data, each one exactly
/// as it was read from a format the clipboard enumerated, in the order
/// enumerated; so where the clipboard enumerates each format once, no
/// format appears twice in the snapshot.
pub proof fn snapshot_keeps_enumerated_blocks(reads: Seq<(u32, Option<Seq<u8>>)>)
    ensures
        memory_blocks_only(snapshot_of(reads)),
        forall|i: int|
            0 <= i < snapshot_of(reads).len() ==> exists|j: int|
                0 <= j < reads.len() && reads[j].0 == (#[trigger] snapshot_of(reads)[i]).0
                    && reads[j].1 == Some(snapshot_of(reads)[i].1),
        (forall|j: int, k: int| 0 <= j < k < reads.len() ==> reads[j].0 != reads[k].0) ==> forall|
            i: int,
            l: int,
        |
            0 <= i < l < snapshot_of(reads).len() ==> snapshot_of(reads)[i].0 != snapshot_of(
                reads,
            )[l].0,
    decreases reads.len(),
{
    if reads.len() > 0 {
        let prev = reads.drop_last();
        snapshot_keeps_enumerated_blocks(prev);
        let p = snapshot_of(prev);
        let cur = snapshot_of(reads);
        assert forall|i: int| 0 <= i < cur.len() implies exists|j: int|
            0 <= j < reads.len() && reads[j].0 == (#[trigger] cur[i]).0 && reads[j].1 == Some(
                cur[i].1,
            ) by {
            if i < p.len() {
                assert(cur[i] == p[i]);
                let j = choose|j: int|
                    0 <= j < prev.len() && prev[j].0 == (#[trigger] p[i]).0 && prev[j].1 == Some(
                        p[i].1,
                    );
                assert(reads[j] == prev[j]);
            } else {
                assert(reads[reads.len() - 1] == reads.last());
            }
        }
        if forall|j: int, k: int| 0 <= j < k < reads.len() ==> reads[j].0 != reads[k].0 {
            assert forall|j: int, k: int| 0 <= j < k < prev.len() implies prev[j].0 != prev[k].0 by {
                assert(prev[j] == reads[j] && prev[k] == reads[k]);
            }
            assert forall|i: int, l: int| 0 <= i < l < cur.len() implies cur[i].0 != cur[l].0 by {
                if l >= p.len() {
                    assert(cur[i] == p[i]);
                    let j = choose|j: int|
                        0 <= j < prev.len() && prev[j].0 == (#[trigger] p[i]).0 && prev[j].1
                            == Some(p[i].1);
                    assert(reads[j] == prev[j]);
                    assert(cur[l].0 == reads[reads.len() - 1].0);
                } else {
                    assert(cur[i] == p[i] && cur[l] == p[l]);
                }
            }
        }
    }
}

/// Joining the selected ranges keeps every character of each, in order:
/// nothing joins to nothing, one range joins to itself, and joining two runs
/// of ranges one after the other is joining each and putting the results
/// side by side.
pub proof fn joining_keeps_every_character(parts: Seq<Seq<char>>, more: Seq<Seq<char>>, s: Seq<char>)
    ensures
        concat_texts(Seq::empty()) == Seq::<char>::empty(),
        concat_texts(seq![s]) == s,
        concat_texts(parts.push(s)) == concat_texts(parts) + s,
        concat_texts(parts + more) == concat_texts(parts) + concat_texts(more),
    decreases more.len(),
{
    assert(seq![s].drop_last() =~= Seq::<Seq<char>>::empty());
    assert(concat_texts(Seq::<Seq<char>>::empty()) == Seq::<char>::empty());
    assert(seq![s].last() == s);
    assert(Seq::<char>::empty() + s =~= s);
    assert(concat_texts(seq![s]) =~= s);
    assert(parts.push(s).drop_last() =~= parts);
    if more.len() == 0 {
        assert(parts + more =~= parts);
        assert(concat_texts(parts) + concat_texts(more) =~= concat_texts(parts));
    } else {
        joining_keeps_every_character(parts, more.drop_last(), s);
        assert((parts + more).drop_last() =~= parts + more.drop_last());
        assert((parts + more).last() == more.last());
        assert(concat_texts(parts + more) =~= concat_texts(parts) + concat_texts(more));
    }
}

/// The chord for a key is Ctrl + that key, for every key: twelve events,
/// nine releases (the last of them of the key itself), then Ctrl pressed,
/// the key clicked and Ctrl released. The only click is of the key asked
/// for, and the only press is of Ctrl.
pub proof fn chord_is_ctrl_and_key(k: Key)
    ensures
        chord(k).len() == 12,
        forall|i: int| 0 <= i < 9 ==> (#[trigger] chord(k)[i]).direction == Direction::Release,
        chord(k)[0].key == Key::Control,
        chord(k)[8] == (KeyEvent { key: k, direction: Direction::Release }),
        chord(k)[9] == (KeyEvent { key: Key::Control, direction: Direction::Press }),
        chord(k)[10] == (KeyEvent { key: k, direction: Direction::Click }),
        chord(k)[11] == (KeyEvent { key: Key::Control, direction: Direction::Release }),
        forall|i: int|
            0 <= i < 12 && (#[trigger] chord(k)[i]).direction == Direction::Click ==> chord(k)[i].key
                == k,
        forall|i: int|
            0 <= i < 12 && (#[trigger] chord(k)[i]).direction == Direction::Press ==> chord(k)[i].key
                == Key::Control,
{
}

/// Every format whose data is a memory block is kept when it has data:
/// anything but 0 and the eight GDI-handle and owner-drawn formats (2, 3, 9,
/// 14, 0x80, 0x82, 0x83, 0x8E), so the registered formats from 0xC000 on
/// (HTML, RTF, private formats) and file lists (CF_HDROP, 15) too. Recording
/// one appends it, and a snapshot taken from an enumeration gains it at
/// its end.
pub proof fn memory_blocks_are_kept(
    entries: Seq<(u32, Seq<u8>)>,
    reads: Seq<(u32, Option<Seq<u8>>)>,
    format: u32,
    bytes: Seq<u8>,
)
    requires
        format != 0 && format != 2 && format != 3 && format != 9 && format != 14 && format != 0x80
            && format != 0x82 && format != 0x83 && format != 0x8e,
        bytes.len() > 0,
    ensures
        keeps_format(format),
        recorded(entries, format, Some(bytes)) == entries.push((format, bytes)),
        snapshot_of(reads.push((format, Some(bytes)))) == snapshot_of(reads).push((format, bytes)),
        recorded(entries, format, None) == entries,
{
    assert(reads.push((format, Some(bytes))).drop_last() =~= reads);
}

} // verus!
