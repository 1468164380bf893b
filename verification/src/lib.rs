//! A virtual CPU for a 16-bit instruction set on an 8-bit register machine:
//! 4 KB of memory, a 64x32 monochrome framebuffer, a 16-key pad and two
//! countdown timers.

pub mod display;
pub mod drawing;
pub mod input;
pub mod instructions;
pub mod laws;
pub mod machine;
pub mod processor;
