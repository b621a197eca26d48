//! Physical and virtual addresses of the `x86_64` architecture.
pub mod frame;
pub mod phys;
pub mod virt;

pub use phys::Physical;
