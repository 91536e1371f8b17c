//! A verified interpreter core for the CHIP-8 instruction set: decoding,
//! instruction semantics, call stack, timers and the in-core display buffer.
pub mod decode;
pub mod display;
pub mod machine;
pub mod stack;
pub mod cpu;
pub mod laws;
