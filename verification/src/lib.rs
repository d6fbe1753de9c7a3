//! The tracee control engine of a native process debugger.
//!
//! The engine decides and the platform acts. Every operation on the traced
//! process is a short conversation: the engine names the kernel request it
//! needs next, the driver performs it and hands the reply back, and the engine
//! either asks again or reports how the operation ended. All state that the
//! decisions rest on (the software breakpoints, the hardware watchpoint slots,
//! the memory map taken at attachment and the executable image) lives in
//! [`Debugger`].

pub mod attach;
pub mod breakpoint;
pub mod debugger;
pub mod error;
pub mod laws;
pub mod location;
pub mod memory_map;
pub mod protocol;
pub mod registers;
pub mod symbols;
pub mod text;
pub mod watchpoint;

pub use debugger::Debugger;
pub use error::Error;
pub use protocol::ContinueExecutionOutcome;
