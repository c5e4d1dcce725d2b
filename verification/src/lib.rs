use vstd::prelude::*;

pub mod args;
pub mod bits;
pub mod cpu;
pub mod cpu_cycle;
pub mod device;
pub mod gbmode;
pub mod gpu;
pub mod isa;
pub mod keypad;
pub mod mbc;
pub mod mmu;
pub mod printer;
pub mod register;
pub mod render;
pub mod serial;
pub mod sound;
pub mod timer;
pub mod util;

verus! {

/// A result whose error is a fixed message.
pub type StrResult<T> = Result<T, &'static str>;

} // verus!
