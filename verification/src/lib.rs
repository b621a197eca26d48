//! Verified core of the Silicium micro-kernel: addresses, bitmaps, time
//! units, interrupt bookkeeping, boot memory map handling and the terminal
//! grid logic.
use vstd::prelude::*;

pub mod addr;
pub mod arch;
pub mod bitmap;
pub mod boot;
pub mod time;
pub mod config;
pub mod drivers;
pub mod hal;
pub mod logging;
pub mod seqlock;
pub mod shell;

verus! {

} // verus!
