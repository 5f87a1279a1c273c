//! The core of a small screen editor: a cursor that stays inside its window,
//! a frame buffer that is handed out whole, the composition of one frame, and
//! the decision of what a key press means.
//!
//! Nothing here touches the terminal. A caller writes the frames it is given
//! and hands back the events it reads.

pub mod banner;
pub mod contents;
pub mod control;
pub mod cursor;
pub mod editor;
pub mod frame;
pub mod keys;
pub mod output;
pub mod reader;
