//! Device-independent logic of the drivers.
pub mod tty;
pub mod fb;
pub mod renderer;
pub mod kbd;
