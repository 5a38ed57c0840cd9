//! Blocking, DMA-backed two-wire transfer engine for nRF52 devices.
//!
//! The library decides everything about a transfer: whether the caller's
//! buffers may be handed to the DMA engine, the exact register program that
//! performs the transfer, and what the byte counts reported by the hardware
//! mean. Running a program against the memory-mapped registers is left to the
//! caller, which owns the peripheral through [`Pwm`].

pub mod buffer;
pub mod error;
pub mod program;
pub mod pwm;

pub use buffer::{EASY_DMA_SIZE_16BIT, EASY_DMA_SIZE_8BIT, SRAM_LOWER, SRAM_UPPER};
pub use error::Error;
pub use program::{Action, Event, Task, Transfer};
pub use pwm::{Frequency, Instance, Pwm, PSEL};

