//! The program's instructions: for each, the accounts it takes, the checks
//! made on them, and what the instruction does once they pass.
//!
//! The checks are those that the program states on its accounts, in the
//! order the framework makes them: who signs, that the programs and the
//! rent sysvar handed in are the ones named (a token program, the classic
//! one or token-2022, and the metadata, associated token and system
//! programs), then the accounts created here, then the others in their
//! order: the address each account is derived at, that a ticket's token
//! account is the associated one of its owner for the ticket's mint, that
//! each account written is passed as writable, and how accounts relate (the
//! signer is the configured authority or the event's creator, the
//! collection mint is the event's, the price goes to the event's creator).
//! Which program owns an account and what type of account it holds, the
//! settings of a mint or token account that already exists, and the
//! creation of new accounts are left to the runtime wrapper.
pub mod shared;
pub mod initialize_config;
pub mod initialize_event;
pub mod add_digital_access;
pub mod mint_token;
pub mod buy_token;
pub mod update_token_metadata;
