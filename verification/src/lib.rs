//! Verified core of an LR35902-family handheld CPU emulator.
//!
//! The library models the register file (with its packed flag register),
//! the 64 KiB memory bus with its nine backing regions, and the instruction
//! engine that executes one machine instruction per call and returns the
//! elapsed base clock cycles.

pub mod bytes;
pub mod view;
pub mod machine;
pub mod regs;
pub mod bus;
pub mod decode;
pub mod alu;
pub mod shift;
pub mod flow;
pub mod step;
pub mod cart;
pub mod laws;

pub use decode::DecodeError;
pub use decode::R8;
pub use machine::Cartridge;
pub use shift::CbOp;
pub use machine::GB;
pub use view::CartView;
pub use view::CpuView;
