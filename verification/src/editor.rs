//! The editor's loop, one decision at a time: draw a frame, take a key, go on
//! or stop.

use crate::cursor::CursorModel;
use crate::keys::{action_of, classify, is_quit, KeyAction, KeyEvent};
use crate::frame::frame_text;
use crate::output::{Output, OutputModel};
use crate::reader::Reader;
use vstd::prelude::*;

verus! {

/// Where the loop stands.
#[derive(Clone, Copy, Debug, PartialEq, Eq, Structural)]
pub enum LoopState {
    /// Frames are drawn and keys are taken.
    Running,
    /// The session is over. Nothing leads out of this state.
    Terminated,
}

/// The mathematical picture of the editor: its screen and where its loop
/// stands.
pub struct EditorModel {
    pub output: OutputModel,
    pub state: LoopState,
}

impl EditorModel {
    /// The editor after it has been handed `event`. A terminated editor stays
    /// as it is. A running one stops on the quit event, moves its cursor on a
    /// plain press of a movement key, and ignores everything else.
    pub open spec fn after_key(self, event: KeyEvent) -> EditorModel {
        match self.state {
            LoopState::Terminated => self,
            LoopState::Running => match action_of(event) {
                KeyAction::Quit => EditorModel { state: LoopState::Terminated, ..self },
                KeyAction::Move(direction) => EditorModel {
                    output: OutputModel {
                        cursor: self.output.cursor.moved(direction),
                        ..self.output
                    },
                    ..self
                },
                KeyAction::Ignore => self,
            },
        }
    }

    /// The editor after it has been handed the events of `events` in order.
    pub open spec fn after_keys(self, events: Seq<KeyEvent>) -> EditorModel
        decreases events.len(),
    {
        if events.len() == 0 {
            self
        } else {
            self.after_keys(events.drop_last()).after_key(events.last())
        }
    }

    /// The editor after it has been asked for a frame. A running editor has
    /// handed out all it had composed; a terminated one stays as it is.
    pub open spec fn after_frame(self) -> EditorModel {
        match self.state {
            LoopState::Terminated => self,
            LoopState::Running => EditorModel {
                output: OutputModel { pending: Seq::<char>::empty(), ..self.output },
                ..self
            },
        }
    }

    /// The frame a running editor draws next.
    pub open spec fn next_frame(self) -> Seq<char> {
        self.output.pending + frame_text(
            self.output.cursor.x,
            self.output.cursor.y,
            self.output.width as nat,
            self.output.height as nat,
        )
    }
}

/// The editor: a screen, a reader of keys, and the state of the loop that
/// ties them together.
#[derive(Debug)]
pub struct Editor {
    reader: Reader,
    output: Output,
    state: LoopState,
}

impl View for Editor {
    type V = EditorModel;

    closed spec fn view(&self) -> EditorModel {
        EditorModel { output: self.output@, state: self.state }
    }
}

impl Editor {
    /// A running editor for a window of `window.0` columns and `window.1`
    /// rows, with the cursor at the origin. Neither side of the window may be
    /// longer than a cursor position sequence can express.
    pub fn new(window: (usize, usize)) -> (editor: Editor)
        requires
            window.0 <= crate::control::MAX_POSITION,
            window.1 <= crate::control::MAX_POSITION,
        ensures
            editor@ == (EditorModel {
                output: OutputModel {
                    width: window.0 as int,
                    height: window.1 as int,
                    cursor: CursorModel::origin(window.0 as int, window.1 as int),
                    pending: Seq::<char>::empty(),
                },
                state: LoopState::Running,
            }),
    {
        Self { reader: Reader, output: Output::new(window), state: LoopState::Running }
    }

    /// The first half of one turn of the loop. A running editor composes the
    /// next frame and hands it out, to be written to the terminal before the
    /// next key is waited for. A terminated editor hands out nothing.
    pub fn run(&mut self) -> (frame: Option<String>)
        ensures
            frame is Some <==> old(self)@.state == LoopState::Running,
            frame matches Some(text) ==> text@ == old(self)@.next_frame(),
            final(self)@ == old(self)@.after_frame(),
    {
        match self.state {
            LoopState::Running => Some(self.output.refresh_screen()),
            LoopState::Terminated => None,
        }
    }

    /// The second half of one turn of the loop: acts on the key event that
    /// was read and tells whether the loop goes on.
    pub fn keypress_process(&mut self, event: KeyEvent) -> (running: bool)
        ensures
            final(self)@ == old(self)@.after_key(event),
            running == (final(self)@.state == LoopState::Running),
            running == (old(self)@.state == LoopState::Running && !is_quit(event)),
    {
        match self.state {
            LoopState::Terminated => false,
            LoopState::Running => match classify(&event) {
                KeyAction::Quit => {
                    self.state = LoopState::Terminated;
                    false
                },
                KeyAction::Move(_) => {
                    self.output.move_cursor(event.code);
                    true
                },
                KeyAction::Ignore => true,
            },
        }
    }

    /// The reader this editor waits for keys with.
    pub fn reader(&self) -> (reader: Reader) {
        self.reader
    }

    /// The screen of this editor.
    pub fn output(&self) -> (output: &Output)
        ensures
            output@ == self@.output,
    {
        &self.output
    }

    /// Where the loop stands.
    pub fn state(&self) -> (state: LoopState)
        ensures
            state == self@.state,
    {
        self.state
    }
}

/// A running editor stops on the quit event and on no other: whatever else it
/// is handed, it is still running afterwards.
pub proof fn lemma_only_quit_terminates(start: EditorModel, event: KeyEvent)
    requires
        start.state == LoopState::Running,
    ensures
        start.after_key(event).state == LoopState::Terminated <==> is_quit(event),
        !is_quit(event) ==> start.after_key(event).state == LoopState::Running,
{
}

/// Nothing leads out of the terminated state, and nothing changes in it.
pub proof fn lemma_terminated_is_final(start: EditorModel, events: Seq<KeyEvent>)
    requires
        start.state == LoopState::Terminated,
    ensures
        start.after_keys(events) == start,
    decreases events.len(),
{
    if events.len() > 0 {
        lemma_terminated_is_final(start, events.drop_last());
    }
}

/// Whatever keys are pressed, the window keeps its size, the cursor stays
/// inside it, and nothing is added to the text being composed.
pub proof fn lemma_keys_keep_cursor_in_bounds(start: EditorModel, events: Seq<KeyEvent>)
    requires
        start.output.cursor.in_bounds(),
    ensures
        start.after_keys(events).output.cursor.in_bounds(),
        start.after_keys(events).output.cursor.width == start.output.cursor.width,
        start.after_keys(events).output.cursor.height == start.output.cursor.height,
        start.after_keys(events).output.width == start.output.width,
        start.after_keys(events).output.height == start.output.height,
        start.after_keys(events).output.pending == start.output.pending,
    decreases events.len(),
{
    if events.len() > 0 {
        lemma_keys_keep_cursor_in_bounds(start, events.drop_last());
    }
}

} // verus!
