//! Text-mode display and line editing for a freestanding kernel: a scrollback
//! buffer larger than the screen, a logical edit cursor mirrored into the
//! hardware cursor registers, and the descriptor encoders used at boot.
pub mod gdt;
pub mod idt;
pub mod print;
pub mod ps2;
pub mod terminal;
pub mod vga;
