//! Verified core of a trustless escrow program: the wire formats of its
//! instructions and of its on-chain state, and the rules that decide what
//! each instruction does to an escrow and to the accounts it names.

pub mod bytes;
pub mod state;
pub mod instruction;
pub mod error;
pub mod pda;
pub mod processor;
pub mod laws;

pub use error::{EscrowError, ProcessError};
pub use instruction::EscrowInstruction;
pub use processor::process_instruction;
pub use state::{Escrow, EscrowStatus};
