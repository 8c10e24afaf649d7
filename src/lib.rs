//! An Intel 8080 processor and the Space Invaders cabinet around it: memory, the
//! instruction decoder and executor, the I/O ports with their shift register, the
//! frame timer that raises the video interrupts, and the screen layout.

pub mod memory;
pub mod opcode;
pub mod processor;
pub mod machine;
pub mod screen;
pub mod debugger;
