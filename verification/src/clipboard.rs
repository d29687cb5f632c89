//! The state that guards the text clipboard loop.
//!
//! One loop polls the clipboard for all sessions. The first session that
//! asks starts it; it ends once it is told to stop.

use vstd::prelude::*;

verus! {

/// The pause between two looks at the clipboard, in milliseconds.
pub const CLIPBOARD_INTERVAL: u64 = 333;

/// Whether the loop is wanted and whether it runs.
#[derive(Clone, Copy, Debug, PartialEq, Eq, Structural)]
pub struct TextClipboardState {
    pub is_required: bool,
    pub running: bool,
}

/// What the loop does next.
#[derive(Clone, Copy, Debug, PartialEq, Eq, Structural)]
pub enum Poll {
    /// End the loop.
    Exit,
    /// Nobody wants the clipboard now: look again at once.
    Skip,
    /// Look at the clipboard, tell the sessions of a change, then pause for
    /// `CLIPBOARD_INTERVAL`.
    Check,
}

impl TextClipboardState {
    /// The state before any session: the clipboard is wanted, the loop
    /// does not run.
    pub fn new() -> (r: Self)
        ensures
            r == (TextClipboardState { is_required: true, running: false }),
    {
        TextClipboardState { is_required: true, running: false }
    }

    /// Notes whether any session wants the text clipboard.
    pub fn set_is_text_clipboard_required(&mut self, b: bool)
        ensures
            *final(self) == (TextClipboardState { is_required: b, ..*old(self) }),
    {
        self.is_required = b;
    }

    /// Asks for the loop on behalf of a session. Says whether the caller
    /// is to start it: only where it does not run yet.
    pub fn try_start_clipboard(&mut self) -> (start: bool)
        ensures
            start == !old(self).running,
            *final(self) == (TextClipboardState { running: true, ..*old(self) }),
    {
        if self.running {
            return false;
        }
        self.running = true;
        true
    }

    /// Tells the loop to stop once a session ended, unless
    /// `sessions_running` says that other sessions still go on.
    pub fn try_stop_clipboard(&mut self, sessions_running: bool)
        ensures
            *final(self) == (TextClipboardState {
                running: old(self).running && sessions_running,
                ..*old(self)
            }),
    {
        if sessions_running {
            return ;
        }
        self.running = false;
    }

    /// What the loop does next.
    pub fn poll(&self) -> (r: Poll)
        ensures
            r == if !self.running {
                Poll::Exit
            } else if !self.is_required {
                Poll::Skip
            } else {
                Poll::Check
            },
    {
        if !self.running {
            Poll::Exit
        } else if !self.is_required {
            Poll::Skip
        } else {
            Poll::Check
        }
    }
}

/// The text to send to a session that just opened: what the clipboard
/// last held, unless that is nothing.
pub fn get_current_text_clipboard_msg(old_text: &str) -> (r: Option<String>)
    ensures
        match r {
            Some(text) => old_text@.len() > 0 && text@ == old_text@,
            None => old_text@.len() == 0,
        },
{
    if old_text.is_empty() {
        None
    } else {
        Some(old_text.to_owned())
    }
}

} // verus!
