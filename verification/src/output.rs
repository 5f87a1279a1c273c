//! The screen: what one frame looks like, and the cursor that is drawn in it.

use crate::banner::{banner, banner_text, version_text, VERSION};
use crate::contents::EditorContents;
use crate::control::{
    clear_token, hide_token, move_to_token, show_token, ClearKind, MAX_POSITION,
};
use crate::frame::{
    clear_screen_text, frame_text, joined, line_break, row_text, rows_text, screen_rows,
    ROW_MARKER,
};
use crate::cursor::{CursorController, CursorModel};
use crate::keys::{direction_for, direction_of, KeyCode};
use vstd::prelude::*;

verus! {

/// What has been drawn once the first `drawn` rows are done.
spec fn rows_drawn(columns: nat, rows: nat, drawn: nat) -> Seq<char> {
    if drawn == 0 {
        Seq::<char>::empty()
    } else if drawn < rows {
        joined(screen_rows(columns, rows).take(drawn as int), line_break()) + line_break()
    } else {
        rows_text(columns, rows)
    }
}

/// Drawing row `drawn`, and a line break unless it is the last row, leads from
/// what `drawn` rows look like to what `drawn + 1` rows look like.
proof fn lemma_next_row(columns: nat, rows: nat, drawn: nat)
    requires
        drawn < rows,
    ensures
        rows_drawn(columns, rows, (drawn + 1) as nat) == rows_drawn(columns, rows, drawn) + row_text(
            drawn as int,
            columns,
            rows,
        ) + if drawn < rows - 1 {
            line_break()
        } else {
            Seq::<char>::empty()
        },
{
    let all = screen_rows(columns, rows);
    let before = all.take(drawn as int);
    let after = all.take(drawn as int + 1);
    assert(after.drop_last() == before);
    assert(after.last() == row_text(drawn as int, columns, rows));
    assert(all.take(rows as int) == all);
    assert(joined(after, line_break()) == rows_drawn(columns, rows, drawn) + row_text(
        drawn as int,
        columns,
        rows,
    )) by {
        if drawn == 0 {
            assert(after.len() == 1);
        } else {
            assert(after.len() >= 2);
        }
    }
}

/// The mathematical picture of the screen: the window's size, the cursor, and
/// the text that has been composed but not yet handed out.
pub struct OutputModel {
    pub width: int,
    pub height: int,
    pub cursor: CursorModel,
    pub pending: Seq<char>,
}

/// The screen of the editor: a window, a cursor bound to it, and the buffer
/// frames are composed in.
#[derive(Debug)]
pub struct Output {
    window: (usize, usize),
    editor_contents: EditorContents,
    cursor_controller: CursorController,
}

impl View for Output {
    type V = OutputModel;

    closed spec fn view(&self) -> OutputModel {
        OutputModel {
            width: self.window.0 as int,
            height: self.window.1 as int,
            cursor: self.cursor_controller@,
            pending: self.editor_contents@,
        }
    }
}

impl Output {
    #[verifier::type_invariant]
    spec fn cursor_fits_window(self) -> bool {
        &&& self.window.0 <= MAX_POSITION
        &&& self.window.1 <= MAX_POSITION
        &&& self.cursor_controller@.width == self.window.0
        &&& self.cursor_controller@.height == self.window.1
        &&& self.cursor_controller@.in_bounds()
    }

    /// The screen for a window of `window.0` columns and `window.1` rows, with
    /// the cursor at the origin and nothing composed yet. Neither side of the
    /// window may be longer than a cursor position sequence can express.
    pub fn new(window: (usize, usize)) -> (output: Output)
        requires
            window.0 <= MAX_POSITION,
            window.1 <= MAX_POSITION,
        ensures
            output@ == (OutputModel {
                width: window.0 as int,
                height: window.1 as int,
                cursor: CursorModel::origin(window.0 as int, window.1 as int),
                pending: Seq::<char>::empty(),
            }),
    {
        Self {
            window,
            editor_contents: EditorContents::new(),
            cursor_controller: CursorController::new(window),
        }
    }

    /// The size of the window, as (columns, rows).
    pub fn window(&self) -> (window: (usize, usize))
        ensures
            window.0 == self@.width,
            window.1 == self@.height,
            window.0 <= MAX_POSITION,
            window.1 <= MAX_POSITION,
    {
        proof {
            use_type_invariant(self);
        }
        self.window
    }

    /// Where the cursor stands, as (column, row).
    pub fn cursor(&self) -> (position: (usize, usize))
        ensures
            position.0 == self@.cursor.x,
            position.1 == self@.cursor.y,
            self@.cursor.in_bounds(),
            self@.cursor.width == self@.width,
            self@.cursor.height == self@.height,
    {
        proof {
            use_type_invariant(self);
        }
        (self.cursor_controller.x(), self.cursor_controller.y())
    }

    /// The text that has been composed and not yet handed out.
    pub fn pending(&self) -> (text: &str)
        ensures
            text@ == self@.pending,
    {
        self.editor_contents.as_str()
    }

    /// The banner for this window.
    pub fn welcome(&self) -> (line: String)
        ensures
            line@ == banner_text(version_text(), self@.width as nat),
            line@.len() <= self@.width,
    {
        proof {
            reveal_strlit("0.0.1");
        }
        let columns = self.window.0;
        banner(VERSION, columns)
    }

    /// Appends `token` to the text being composed. The buffer is taken out of
    /// the screen while it grows and put back afterwards, so that the screen
    /// is whole at every point in between.
    fn queue(&mut self, token: &str)
        ensures
            final(self)@ == (OutputModel { pending: old(self)@.pending + token@, ..old(self)@ }),
    {
        proof {
            use_type_invariant(&*self);
        }
        let mut contents = EditorContents::new();
        std::mem::swap(&mut contents, &mut self.editor_contents);
        contents.push_str(token);
        self.editor_contents = contents;
    }

    /// Appends one character to the text being composed.
    fn queue_char(&mut self, ch: char)
        ensures
            final(self)@ == (OutputModel { pending: old(self)@.pending.push(ch), ..old(self)@ }),
    {
        proof {
            use_type_invariant(&*self);
        }
        let mut contents = EditorContents::new();
        std::mem::swap(&mut contents, &mut self.editor_contents);
        contents.push(ch);
        self.editor_contents = contents;
    }

    /// Composes the rows of a frame, one after the other, behind whatever has
    /// been composed already.
    pub fn draw_rows(&mut self)
        ensures
            final(self)@ == (OutputModel {
                pending: old(self)@.pending + rows_text(
                    old(self)@.width as nat,
                    old(self)@.height as nat,
                ),
                ..old(self)@
            }),
    {
        let height = self.window.1;
        let ghost columns = self.window.0 as nat;
        let mut i: usize = 0;
        while i < height
            invariant
                i <= height,
                height == old(self)@.height,
                columns == old(self)@.width,
                self@ == (OutputModel {
                    pending: old(self)@.pending + rows_drawn(columns, height as nat, i as nat),
                    ..old(self)@
                }),
            decreases height - i,
        {
            let ghost before = self@.pending;
            self.queue_char(ROW_MARKER);
            let erase = clear_token(ClearKind::UntilNewLine);
            self.queue(erase.as_str());
            if i == height / 3 {
                let line = self.welcome();
                self.queue(line.as_str());
            }
            if i < height - 1 {
                proof {
                    reveal_strlit("\r\n");
                }
                self.queue("\r\n");
            }
            proof {
                lemma_next_row(columns, height as nat, i as nat);
                assert(self@.pending =~= before + row_text(i as int, columns, height as nat) + if i
                    < height - 1 {
                    line_break()
                } else {
                    Seq::<char>::empty()
                });
            }
            i += 1;
            proof {
                assert(self@.pending =~= old(self)@.pending + rows_drawn(
                    columns,
                    height as nat,
                    i as nat,
                ));
            }
        }
    }

    /// Moves the cursor one step if `code` is a movement key, and leaves
    /// everything as it is if not.
    pub fn move_cursor(&mut self, code: KeyCode)
        ensures
            final(self)@ == (OutputModel {
                cursor: match direction_of(code) {
                    Some(direction) => old(self)@.cursor.moved(direction),
                    None => old(self)@.cursor,
                },
                ..old(self)@
            }),
            final(self)@.cursor.in_bounds(),
    {
        proof {
            use_type_invariant(&*self);
        }
        match direction_for(code) {
            Some(direction) => {
                let mut cursor = self.cursor_controller;
                cursor.move_cursor(direction);
                self.cursor_controller = cursor;
            },
            None => {},
        }
    }

    /// What to write to the terminal to wipe the screen.
    pub fn clear_screen() -> (text: String)
        ensures
            text@ == clear_screen_text(),
    {
        let mut text = clear_token(ClearKind::All);
        let origin = move_to_token(0, 0);
        text.push_str(origin.as_str());
        text
    }

    /// Composes one frame and hands it out, leaving nothing behind. The frame
    /// is to be written to the terminal in one piece.
    pub fn refresh_screen(&mut self) -> (frame: String)
        ensures
            frame@ == old(self)@.pending + frame_text(
                old(self)@.cursor.x,
                old(self)@.cursor.y,
                old(self)@.width as nat,
                old(self)@.height as nat,
            ),
            final(self)@ == (OutputModel { pending: Seq::<char>::empty(), ..old(self)@ }),
    {
        proof {
            use_type_invariant(&*self);
        }
        let hide = hide_token();
        self.queue(hide.as_str());
        let origin = move_to_token(0, 0);
        self.queue(origin.as_str());
        self.draw_rows();
        let x = self.cursor_controller.x();
        let y = self.cursor_controller.y();
        let place = move_to_token(x as u16, y as u16);
        self.queue(place.as_str());
        let show = show_token();
        self.queue(show.as_str());
        let mut contents = EditorContents::new();
        std::mem::swap(&mut contents, &mut self.editor_contents);
        contents.flush()
    }
}

} // verus!
