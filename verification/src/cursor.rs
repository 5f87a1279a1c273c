//! The cursor: a position on the screen that moves one step at a time and
//! never leaves the window it was created for.

use vstd::math::{max, min};
use vstd::prelude::*;

verus! {

/// A way the cursor can be asked to go.
#[derive(Clone, Copy, Debug, PartialEq, Eq, Structural)]
pub enum Direction {
    Left,
    Up,
    Down,
    Right,
    Home,
    End,
}

/// The mathematical picture of a cursor: where it stands and how far it may go.
///
/// Column `width` and row `height` are themselves legal positions, so a cursor
/// may rest one step past the last cell in either direction.
pub struct CursorModel {
    pub x: int,
    pub y: int,
    pub width: int,
    pub height: int,
}

impl CursorModel {
    /// The cursor at the origin of a window of the given size.
    pub open spec fn origin(width: int, height: int) -> CursorModel {
        CursorModel { x: 0, y: 0, width, height }
    }

    /// The position lies inside the window.
    pub open spec fn in_bounds(self) -> bool {
        0 <= self.x <= self.width && 0 <= self.y <= self.height
    }

    /// One step. Steps that would leave the window stop at its edge; no step
    /// wraps to another row or column.
    pub open spec fn moved(self, direction: Direction) -> CursorModel {
        match direction {
            Direction::Left => CursorModel { x: max(0, self.x - 1), ..self },
            Direction::Right => CursorModel { x: min(self.width, self.x + 1), ..self },
            Direction::Up => CursorModel { y: max(0, self.y - 1), ..self },
            Direction::Down => CursorModel { y: min(self.height, self.y + 1), ..self },
            Direction::Home => CursorModel { x: 0, ..self },
            Direction::End => CursorModel { x: self.width, ..self },
        }
    }

    /// The same step taken `count` times in a row.
    pub open spec fn moved_times(self, direction: Direction, count: nat) -> CursorModel
        decreases count,
    {
        if count == 0 {
            self
        } else {
            self.moved(direction).moved_times(direction, (count - 1) as nat)
        }
    }

    /// The steps of `path` taken in order, first to last.
    pub open spec fn moved_along(self, path: Seq<Direction>) -> CursorModel
        decreases path.len(),
    {
        if path.len() == 0 {
            self
        } else {
            self.moved_along(path.drop_last()).moved(path.last())
        }
    }
}

/// A cursor bound to a window of `window.0` columns and `window.1` rows.
#[derive(Clone, Copy, Debug)]
pub struct CursorController {
    x: usize,
    y: usize,
    window: (usize, usize),
}

impl View for CursorController {
    type V = CursorModel;

    closed spec fn view(&self) -> CursorModel {
        CursorModel {
            x: self.x as int,
            y: self.y as int,
            width: self.window.0 as int,
            height: self.window.1 as int,
        }
    }
}

impl CursorController {
    #[verifier::type_invariant]
    spec fn within_window(self) -> bool {
        self.x <= self.window.0 && self.y <= self.window.1
    }

    /// A cursor at the top left corner of `window` (columns, rows).
    pub fn new(window: (usize, usize)) -> (cursor: CursorController)
        ensures
            cursor@ == CursorModel::origin(window.0 as int, window.1 as int),
    {
        Self { x: 0, y: 0, window }
    }

    /// Takes one step in `direction`, stopping at the window's edge.
    pub fn move_cursor(&mut self, direction: Direction)
        ensures
            final(self)@ == old(self)@.moved(direction),
            final(self)@.in_bounds(),
    {
        proof {
            use_type_invariant(&*self);
        }
        match direction {
            Direction::Left => {
                self.x = self.x.saturating_sub(1);
            },
            Direction::Down => {
                if self.y < self.window.1 {
                    self.y += 1;
                }
            },
            Direction::Up => {
                self.y = self.y.saturating_sub(1);
            },
            Direction::Right => {
                if self.x < self.window.0 {
                    self.x += 1;
                }
            },
            Direction::Home => {
                self.x = 0;
            },
            Direction::End => {
                self.x = self.window.0;
            },
        }
    }

    /// The column the cursor stands in.
    pub fn x(&self) -> (x: usize)
        ensures
            x == self@.x,
            x <= self@.width,
    {
        proof {
            use_type_invariant(self);
        }
        self.x
    }

    /// The row the cursor stands in.
    pub fn y(&self) -> (y: usize)
        ensures
            y == self@.y,
            y <= self@.height,
    {
        proof {
            use_type_invariant(self);
        }
        self.y
    }

    /// The window the cursor is bound to, as (columns, rows).
    pub fn window(&self) -> (window: (usize, usize))
        ensures
            window.0 == self@.width,
            window.1 == self@.height,
    {
        self.window
    }
}

/// A step changes neither the window nor, for a cursor inside it, the fact of
/// being inside.
pub proof fn lemma_step_stays_in_bounds(start: CursorModel, direction: Direction)
    requires
        start.in_bounds(),
    ensures
        start.moved(direction).in_bounds(),
        start.moved(direction).width == start.width,
        start.moved(direction).height == start.height,
{
}

/// However many steps are taken and in whatever order, a cursor that starts
/// inside its window ends inside the same window.
pub proof fn lemma_path_stays_in_bounds(start: CursorModel, path: Seq<Direction>)
    requires
        start.in_bounds(),
    ensures
        start.moved_along(path).in_bounds(),
        start.moved_along(path).width == start.width,
        start.moved_along(path).height == start.height,
    decreases path.len(),
{
    if path.len() > 0 {
        lemma_path_stays_in_bounds(start, path.drop_last());
        lemma_step_stays_in_bounds(start.moved_along(path.drop_last()), path.last());
    }
}

/// `count` steps to the left from column `k` end in column `max(0, k - count)`
/// and leave the row alone.
pub proof fn lemma_left_times(start: CursorModel, count: nat)
    requires
        start.in_bounds(),
    ensures
        start.moved_times(Direction::Left, count) == (CursorModel {
            x: max(0, start.x - count),
            ..start
        }),
    decreases count,
{
    if count > 0 {
        lemma_left_times(start.moved(Direction::Left), (count - 1) as nat);
    }
}

/// `count` steps to the right from column `k` end in column
/// `min(width, k + count)` and leave the row alone.
pub proof fn lemma_right_times(start: CursorModel, count: nat)
    requires
        start.in_bounds(),
    ensures
        start.moved_times(Direction::Right, count) == (CursorModel {
            x: min(start.width, start.x + count),
            ..start
        }),
    decreases count,
{
    if count > 0 {
        lemma_right_times(start.moved(Direction::Right), (count - 1) as nat);
    }
}

/// `count` steps up from row `k` end in row `max(0, k - count)` and leave the
/// column alone.
pub proof fn lemma_up_times(start: CursorModel, count: nat)
    requires
        start.in_bounds(),
    ensures
        start.moved_times(Direction::Up, count) == (CursorModel {
            y: max(0, start.y - count),
            ..start
        }),
    decreases count,
{
    if count > 0 {
        lemma_up_times(start.moved(Direction::Up), (count - 1) as nat);
    }
}

/// `count` steps down from row `k` end in row `min(height, k + count)` and
/// leave the column alone.
pub proof fn lemma_down_times(start: CursorModel, count: nat)
    requires
        start.in_bounds(),
    ensures
        start.moved_times(Direction::Down, count) == (CursorModel {
            y: min(start.height, start.y + count),
            ..start
        }),
    decreases count,
{
    if count > 0 {
        lemma_down_times(start.moved(Direction::Down), (count - 1) as nat);
    }
}

/// `Home` lands in column 0 and `End` in column `width`, wherever the cursor
/// stood before; neither touches the row.
pub proof fn lemma_home_and_end(start: CursorModel)
    ensures
        start.moved(Direction::Home).x == 0,
        start.moved(Direction::End).x == start.width,
        start.moved(Direction::Home).y == start.y,
        start.moved(Direction::End).y == start.y,
{
}

} // verus!
