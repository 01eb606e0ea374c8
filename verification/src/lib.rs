//! A verified model of the Boltick ticketing program: its account state,
//! the checks that guard each instruction, and the state changes and calls
//! into the token, metadata and system programs that each instruction makes.
//!
//! The runtime work itself (reading accounts, invoking other programs,
//! reading the clock) stays with the caller: each instruction here takes
//! the accounts' addresses and stored state and gives back the new state
//! and the calls to make.

pub mod boltick;
pub mod call_laws;
pub mod constants;
pub mod contracts;
pub mod cpi;
pub mod errors;
pub mod instructions;
pub mod keys;
pub mod pda;
pub mod program_ids;
pub mod seeds;
pub mod states;
pub mod text;

pub use errors::{DappError, ProgramError};
pub use keys::Pubkey;
pub use states::{Config, DigitalAccess, Event};
