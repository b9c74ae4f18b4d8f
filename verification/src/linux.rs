//! Reading the selection on Linux: which display server to ask, and what
//! to make of its answer.
use vstd::prelude::*;

use crate::text::{clean, decode_selection, utf8_lossy};
use vstd::utf8::{decode_utf8, valid_utf8};

verus! {

/// The kind of graphical session the process runs in.
#[derive(Clone, Copy, Debug, PartialEq, Eq, Structural)]
pub enum Session {
    X11,
    Wayland,
}

/// The characters of an optional string slice.
pub open spec fn opt_str_view(s: Option<&str>) -> Option<Seq<char>> {
    match s {
        Some(t) => Some(t@),
        None => None,
    }
}

/// Which display server the selection is read from. `xdg_session_type` is
/// `XDG_SESSION_TYPE` where it is set (and valid Unicode); `wayland_display`
/// and `display` say whether `WAYLAND_DISPLAY` and `DISPLAY` are set.
/// `XDG_SESSION_TYPE` decides when it says `wayland` or `x11`; otherwise
/// `WAYLAND_DISPLAY` is looked at before `DISPLAY`, since a Wayland session
/// usually runs Xwayland too and so sets both.
pub open spec fn detect_session(xdg_session_type: Option<Seq<char>>, wayland_display: bool, display: bool) -> Option<Session> {
    if xdg_session_type == Some("wayland"@) {
        Some(Session::Wayland)
    } else if xdg_session_type == Some("x11"@) {
        Some(Session::X11)
    } else if wayland_display {
        Some(Session::Wayland)
    } else if display {
        Some(Session::X11)
    } else {
        None
    }
}

/// Works out the session from the three environment variables (see
/// `detect_session`).
pub fn session(xdg_session_type: Option<&str>, wayland_display: bool, display: bool) -> (s: Option<Session>)
    ensures
        s == detect_session(opt_str_view(xdg_session_type), wayland_display, display),
{
    if let Some(kind) = xdg_session_type {
        let kind: String = kind.to_owned();
        let wayland: String = "wayland".to_owned();
        let x11: String = "x11".to_owned();
        if kind == wayland {
            return Some(Session::Wayland);
        }
        if kind == x11 {
            return Some(Session::X11);
        }
    }
    if wayland_display {
        Some(Session::Wayland)
    } else if display {
        Some(Session::X11)
    } else {
        None
    }
}

/// Where a read of the selection stands between two replies from the
/// display server.
#[derive(Clone, Copy, Debug, PartialEq, Eq, Structural)]
pub enum Stage {
    /// Waiting to hear whether the compositor offers the primary selection.
    CheckingSupport,
    /// Waiting for the Wayland primary selection's contents.
    ReadingWayland,
    /// Waiting for the X11 primary selection's contents.
    ReadingX11,
    /// Done; the answer has been handed out.
    Finished,
}

/// A reply from the display server.
pub enum Event {
    /// Whether the compositor implements the primary selection protocol;
    /// `None` where the check itself failed.
    PrimarySupport(Option<bool>),
    /// The bytes of the selection; `None` where reading them failed.
    Contents(Option<Vec<u8>>),
}

/// What to do next.
pub enum Action {
    /// Ask whether the compositor offers the primary selection.
    CheckPrimarySupport,
    /// Read the Wayland primary selection as text.
    ReadWaylandPrimary,
    /// Read the X11 primary selection (`PRIMARY`, as `UTF8_STRING`).
    ReadX11Primary,
    /// Stop; this is the selected text.
    Return(String),
}

/// A reply, with its bytes as a sequence.
pub enum EventView {
    PrimarySupport(Option<bool>),
    Contents(Option<Seq<u8>>),
}

/// An action, with its text as a sequence.
pub enum ActionView {
    CheckPrimarySupport,
    ReadWaylandPrimary,
    ReadX11Primary,
    Return(Seq<char>),
}

impl View for Event {
    type V = EventView;

    open spec fn view(&self) -> EventView {
        match self {
            Event::PrimarySupport(s) => EventView::PrimarySupport(*s),
            Event::Contents(Some(b)) => EventView::Contents(Some(b@)),
            Event::Contents(None) => EventView::Contents(None),
        }
    }
}

impl View for Action {
    type V = ActionView;

    open spec fn view(&self) -> ActionView {
        match self {
            Action::CheckPrimarySupport => ActionView::CheckPrimarySupport,
            Action::ReadWaylandPrimary => ActionView::ReadWaylandPrimary,
            Action::ReadX11Primary => ActionView::ReadX11Primary,
            Action::Return(t) => ActionView::Return(t@),
        }
    }
}

/// The text handed out for what a read returned: the bytes decoded and
/// cleaned, or nothing where the read failed.
pub open spec fn text_of(contents: Option<Seq<u8>>) -> Seq<char> {
    match contents {
        Some(b) => clean(utf8_lossy(b)),
        None => Seq::empty(),
    }
}

/// How a read begins in a given session: on Wayland by asking whether the
/// primary selection is offered at all, on X11 by reading it, and with no
/// graphical session by answering with nothing.
pub open spec fn begin(session: Option<Session>) -> (Stage, ActionView) {
    match session {
        Some(Session::Wayland) => (Stage::CheckingSupport, ActionView::CheckPrimarySupport),
        Some(Session::X11) => (Stage::ReadingX11, ActionView::ReadX11Primary),
        None => (Stage::Finished, ActionView::Return(Seq::empty())),
    }
}

/// How a read goes on after a reply. The primary selection is an optional
/// Wayland protocol, and a compositor without it never answers: unless it is
/// reported as offered, the selection is read the X11 way (through
/// Xwayland). Contents end the read. A reply that the stage did not ask for
/// ends it with nothing.
pub open spec fn next(stage: Stage, event: EventView) -> (Stage, ActionView) {
    match (stage, event) {
        (Stage::CheckingSupport, EventView::PrimarySupport(s)) => if s == Some(true) {
            (Stage::ReadingWayland, ActionView::ReadWaylandPrimary)
        } else {
            (Stage::ReadingX11, ActionView::ReadX11Primary)
        },
        (Stage::ReadingWayland, EventView::Contents(c)) => (
            Stage::Finished,
            ActionView::Return(text_of(c)),
        ),
        (Stage::ReadingX11, EventView::Contents(c)) => (
            Stage::Finished,
            ActionView::Return(text_of(c)),
        ),
        _ => (Stage::Finished, ActionView::Return(Seq::empty())),
    }
}

/// Starts reading the selection in `session` (see `begin`).
pub fn get_text(session: Option<Session>) -> (r: (Stage, Action))
    ensures
        (r.0, r.1@) == begin(session),
{
    match session {
        Some(Session::Wayland) => (Stage::CheckingSupport, Action::CheckPrimarySupport),
        Some(Session::X11) => (Stage::ReadingX11, Action::ReadX11Primary),
        None => (Stage::Finished, Action::Return(String::new())),
    }
}

/// Goes on reading the selection after a reply (see `next`).
pub fn step(stage: Stage, event: Event) -> (r: (Stage, Action))
    ensures
        (r.0, r.1@) == next(stage, event@),
        (match event@ {
            EventView::Contents(Some(b)) => (stage == Stage::ReadingX11 || stage
                == Stage::ReadingWayland) && valid_utf8(b) ==> r.1@ == ActionView::Return(
                clean(decode_utf8(b)),
            ),
            _ => true,
        }),
{
    match (stage, event) {
        (Stage::CheckingSupport, Event::PrimarySupport(s)) => {
            if s == Some(true) {
                (Stage::ReadingWayland, Action::ReadWaylandPrimary)
            } else {
                (Stage::ReadingX11, Action::ReadX11Primary)
            }
        },
        (Stage::ReadingWayland, Event::Contents(c)) | (Stage::ReadingX11, Event::Contents(c)) => {
            let text = match c {
                Some(bytes) => decode_selection(bytes.as_slice()),
                None => String::new(),
            };
            (Stage::Finished, Action::Return(text))
        },
        _ => (Stage::Finished, Action::Return(String::new())),
    }
}

/// What the desktop would answer: whether the primary selection is
/// offered, and what reading each primary selection gives.
pub struct Desktop {
    pub primary_support: Option<bool>,
    pub wayland_primary: Option<Seq<u8>>,
    pub x11_primary: Option<Seq<u8>>,
}

/// The desktop's reply to an action.
pub open spec fn reply(action: ActionView, desktop: Desktop) -> EventView {
    match action {
        ActionView::CheckPrimarySupport => EventView::PrimarySupport(desktop.primary_support),
        ActionView::ReadWaylandPrimary => EventView::Contents(desktop.wayland_primary),
        _ => EventView::Contents(desktop.x11_primary),
    }
}

/// The action a read has come to after at most `fuel` replies.
pub open spec fn run(stage: Stage, action: ActionView, desktop: Desktop, fuel: nat) -> ActionView
    decreases fuel,
{
    if action is Return || fuel == 0 {
        action
    } else {
        let (s, a) = next(stage, reply(action, desktop));
        run(s, a, desktop, (fuel - 1) as nat)
    }
}

/// The selected text that a session and a desktop give.
pub open spec fn selection(session: Option<Session>, desktop: Desktop) -> Seq<char> {
    match session {
        None => Seq::empty(),
        Some(Session::X11) => text_of(desktop.x11_primary),
        Some(Session::Wayland) => if desktop.primary_support == Some(true) {
            text_of(desktop.wayland_primary)
        } else {
            text_of(desktop.x11_primary)
        },
    }
}

/// A read of the selection ends after at most two replies, with the cleaned
/// text of the primary selection that the session names (on Wayland, the X11
/// one unless the compositor offers it), or with nothing where there is no
/// session or the read failed.
pub proof fn read_ends_with_selection(session: Option<Session>, desktop: Desktop)
    ensures
        ({
            let (s, a) = begin(session);
            run(s, a, desktop, 2) == ActionView::Return(selection(session, desktop))
        }),
{
    reveal_with_fuel(run, 3);
}

/// `XDG_SESSION_TYPE` decides when it names a session; otherwise a set
/// `WAYLAND_DISPLAY` means Wayland whatever `DISPLAY` says, and with neither
/// display variable there is no session.
pub proof fn session_detection_order(xdg_session_type: Option<Seq<char>>, wayland_display: bool, display: bool)
    ensures
        xdg_session_type == Some("wayland"@) ==> detect_session(xdg_session_type, wayland_display, display) == Some(Session::Wayland),
        xdg_session_type == Some("x11"@) ==> detect_session(xdg_session_type, wayland_display, display) == Some(Session::X11),
        xdg_session_type != Some("wayland"@) && xdg_session_type != Some("x11"@) ==>
            detect_session(xdg_session_type, wayland_display, display) == if wayland_display {
                Some(Session::Wayland)
            } else if display {
                Some(Session::X11)
            } else {
                None
            },
{
    reveal_strlit("wayland");
    reveal_strlit("x11");
    assert("wayland"@[0] != "x11"@[0]);
}

/// Whatever bytes a read of either primary selection returns, all of them
/// are decoded, and the answer is their cleaned decoding: nothing is dropped
/// before decoding, and the read ends there.
pub proof fn read_hands_out_every_byte(bytes: Seq<u8>)
    ensures
        next(Stage::ReadingX11, EventView::Contents(Some(bytes))) == (
            Stage::Finished,
            ActionView::Return(clean(utf8_lossy(bytes))),
        ),
        next(Stage::ReadingWayland, EventView::Contents(Some(bytes))) == (
            Stage::Finished,
            ActionView::Return(clean(utf8_lossy(bytes))),
        ),
        next(Stage::ReadingX11, EventView::Contents(None)) == (
            Stage::Finished,
            ActionView::Return(Seq::<char>::empty()),
        ),
{
}

} // verus!
