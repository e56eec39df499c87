//! A multi-screen terminal: each screen keeps its text as a flat sequence of
//! entries in which line breaks are characters, and is laid out onto the
//! display when flushed.
pub mod screen;
pub mod terminal;
pub mod vga;
