//! Waiting for a key: what to do with the outcome of each attempt.

use crate::keys::KeyEvent;
use vstd::prelude::*;

verus! {

/// How long one attempt to find input waits before it gives up, in
/// milliseconds.
pub const POLL_TIMEOUT_MS: u64 = 500;

/// Something that happened at the terminal.
#[derive(Clone, Copy, Debug, PartialEq, Eq, Structural)]
pub enum TerminalEvent {
    /// A key event.
    Key(KeyEvent),
    /// Anything else: the window was resized, the mouse moved, the window
    /// gained or lost focus, text was pasted.
    Other,
}

/// How one attempt to find input ended.
#[derive(Clone, Copy, Debug, PartialEq, Eq, Structural)]
pub enum Polled {
    /// The wait ran out and nothing had arrived.
    TimedOut,
    /// An event had arrived and was read.
    Event(TerminalEvent),
}

/// What the caller of [`Reader::read_key`] does next.
#[derive(Clone, Copy, Debug, PartialEq, Eq, Structural)]
pub enum ReadStep {
    /// Wait for input again, for at most this many milliseconds.
    Poll(u64),
    /// The key event that was waited for.
    Deliver(KeyEvent),
}

/// What follows on the outcome of an attempt: a key event is delivered as it
/// is, whatever its kind; anything else leads to another attempt of the usual
/// length.
pub open spec fn step_after(polled: Polled) -> ReadStep {
    match polled {
        Polled::Event(TerminalEvent::Key(event)) => ReadStep::Deliver(event),
        _ => ReadStep::Poll(POLL_TIMEOUT_MS),
    }
}

/// The part of the editor that waits for keys.
#[derive(Clone, Copy, Debug)]
pub struct Reader;

impl Reader {
    /// The step a wait for a key begins with.
    pub fn start(&self) -> (step: ReadStep)
        ensures
            step == ReadStep::Poll(POLL_TIMEOUT_MS),
    {
        ReadStep::Poll(POLL_TIMEOUT_MS)
    }

    /// Decides what follows on the outcome of an attempt to find input.
    pub fn read_key(&self, polled: Polled) -> (step: ReadStep)
        ensures
            step == step_after(polled),
    {
        match polled {
            Polled::Event(TerminalEvent::Key(event)) => ReadStep::Deliver(event),
            _ => ReadStep::Poll(POLL_TIMEOUT_MS),
        }
    }
}

} // verus!
