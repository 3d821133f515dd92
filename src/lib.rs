//! The editing engine of a modal text editor: a line buffer, a cursor and
//! viewport kept valid after every keystroke, and the modes that decide what
//! a keystroke means.
pub mod text;
pub mod rope;
pub mod buffer;
pub mod editor;
pub mod command;
pub mod render;
