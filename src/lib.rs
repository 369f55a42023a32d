//! An interpreter for a small 8-bit virtual machine: registers, 4 KiB of
//! memory, a call stack, a delay timer, a 64x32 monochrome framebuffer, a
//! 16-key keypad and a deterministic pseudo-random generator.
pub mod cpu;
pub mod display;
pub mod instruction;
pub mod keypad;
pub mod rand;
pub mod theorems;
