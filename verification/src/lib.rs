//! Reading and replacing the text that the user has selected on the desktop.
//!
//! Talking to the desktop (environment variables, the display server, the
//! clipboard, synthesised keystrokes) happens outside this crate. What this
//! crate decides is everything in between: which source a selection is read
//! from, in what order the clipboard is borrowed and given back, which
//! keystrokes make up a chord, and how the text that comes back is cleaned.
use vstd::prelude::*;

pub mod linux;
pub mod text;
pub mod windows;

use crate::text::{trim, trim_str};

verus! {

/// The text selected by the cursor, given what the platform's reader
/// returned for it (empty where nothing is selected or the read failed):
/// that text without leading or trailing white space.
pub fn get_text(raw: &str) -> (selected: String)
    ensures
        selected@ == trim(raw@),
        raw@.len() > 0 && 0x21 <= (raw@[0] as u32) <= 0x7e && 0x21 <= (raw@.last() as u32) <= 0x7e
            ==> selected@ == raw@,
{
    trim_str(raw)
}

/// Replacing the selection with `text`. Only the Windows paste path
/// (`windows::set_text`) performs it; on every other platform nothing is
/// sent, and the answer is `false` rather than a pretence of success.
pub fn set_text(text: &str) -> (sent: bool)
    ensures
        !sent,
{
    false
}

} // verus!
