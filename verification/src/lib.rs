//! Core of a Super Nintendo (SNES) emulator, verified with Verus.
//!
//! The crate models the 65C816 register file and processor-status word, the
//! arithmetic/logic unit of the CPU interpreter, the interrupt unit, the
//! event-driven scheduler that coordinates the CPU with the peripheral
//! subsystems, the stack and exception-entry sequences, and the
//! cartridge-header auto-detection that derives the ROM/RAM address-space
//! map. Host-facing pieces (audio device, video output, input polling) are
//! external collaborators; only the index arithmetic of the audio sample
//! ring lives here.

pub mod alu;
pub mod cart;
pub mod cpu;
pub mod emu;
pub mod irqs;
pub mod psw;
pub mod regs;
pub mod ring;
pub mod schedule;
