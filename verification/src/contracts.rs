//! The workspace's second program, `boltick-contracts`: its one entry
//! point sets up nothing, and its events record only their creator,
//! collection, date, name and description.
use vstd::prelude::*;

use crate::cpi::{CollectionDetails, CpiInstruction, Invocation, invocations_view};
use crate::instructions::initialize_event::{spec_initialize_event_calls, InitializeEventBumps};
use crate::instructions::shared::{create_master_edition, create_metadata_accounts, mint_to};
use crate::keys::Pubkey;
use crate::seeds::{collection_signer_seeds, copy_seed_list};

pub use crate::instructions::initialize_event::InitializeEvent;
pub use crate::states::Config;

verus! {

/// The accounts of this program's `initialize_config`: only the signer.
#[derive(Clone, Copy, Debug)]
pub struct InitializeConfig {
    pub authority: Pubkey,
    /// Whether `authority` signed the transaction.
    pub authority_is_signer: bool,
    /// Whether `authority` was passed as writable.
    pub authority_is_writable: bool,
}

/// Accepts the instruction and changes nothing.
pub fn process_initialize_config(_accounts: &InitializeConfig) -> (res: Result<(), crate::errors::ProgramError>)
    ensures
        res is Ok,
{
    Ok(())
}

/// This program's one entry point: accepted exactly when the authority
/// signed and was passed as writable, and then changes nothing.
pub fn initialize_config(accounts: &InitializeConfig) -> (res: Result<(), crate::errors::ProgramError>)
    ensures
        res is Ok <==> accounts.authority_is_signer && accounts.authority_is_writable,
        !accounts.authority_is_signer ==> res == Err::<(), crate::errors::ProgramError>(
            crate::errors::ProgramError::AccountNotSigner,
        ),
        accounts.authority_is_signer && !accounts.authority_is_writable ==> res == Err::<
            (),
            crate::errors::ProgramError,
        >(crate::errors::ProgramError::ConstraintMut),
{
    if !accounts.authority_is_signer {
        return Err(crate::errors::ProgramError::AccountNotSigner);
    }
    if !accounts.authority_is_writable {
        return Err(crate::errors::ProgramError::ConstraintMut);
    }
    process_initialize_config(accounts)
}

/// An event as this program records it.
#[derive(Debug)]
pub struct Event {
    pub creator: Pubkey,
    pub collection_mint_account: Pubkey,
    pub date: i64,
    pub name: Vec<u8>,
    pub description: Vec<u8>,
}

pub struct EventView {
    pub creator: Pubkey,
    pub collection_mint_account: Pubkey,
    pub date: i64,
    pub name: Seq<u8>,
    pub description: Seq<u8>,
}

impl View for Event {
    type V = EventView;

    open spec fn view(&self) -> EventView {
        EventView {
            creator: self.creator,
            collection_mint_account: self.collection_mint_account,
            date: self.date,
            name: self.name@,
            description: self.description@,
        }
    }
}

/// The event that this program's `initialize_event` handler writes.
pub open spec fn spec_new_event(
    accounts: InitializeEvent,
    now: i64,
    name: Seq<u8>,
    description: Seq<u8>,
) -> EventView {
    EventView { creator: accounts.creator, collection_mint_account: accounts.collection_mint, date: now, name, description }
}

/// Creates an event and its collection with the same calls as the main
/// program's handler, and records the event's creator, collection, date,
/// name and description; counts one more event in the configuration.
pub fn process_initialize_event(
    accounts: &InitializeEvent,
    bumps: &InitializeEventBumps,
    config: &mut Config,
    now: i64,
    name: Vec<u8>,
    symbol: Vec<u8>,
    uri: Vec<u8>,
    event_description: Vec<u8>,
) -> (res: (Event, Vec<Invocation>))
    requires
        old(config).event_count < u64::MAX,
    ensures
        res.0@ == spec_new_event(*accounts, now, name@, event_description@),
        invocations_view(res.1@) == spec_initialize_event_calls(
            *accounts,
            *bumps,
            old(config).event_count,
            name@,
            symbol@,
            uri@,
        ),
        *final(config) == (Config { event_count: (old(config).event_count + 1) as u64, ..*old(config) }),
{
    let a = accounts;
    let signer_seeds = collection_signer_seeds(config.event_count, bumps.collection_mint);
    let mut calls: Vec<Invocation> = Vec::new();
    calls.push(mint_to(&a.token_program, &a.collection_mint, &a.collection_token_account, &a.collection_mint, &signer_seeds));
    calls.push(
        create_metadata_accounts(
            &a.token_metadata_program,
            &a.metadata_account,
            &a.collection_mint,
            &a.collection_mint,
            &a.creator,
            &a.system_program,
            &a.rent,
            &signer_seeds,
            crate::text::copy_bytes(&name),
            symbol,
            uri,
            0,
            None,
            false,
            Some(CollectionDetails::V1 { size: 0 }),
        ),
    );
    calls.push(
        create_master_edition(
            &a.token_metadata_program,
            &a.edition_account,
            &a.collection_mint,
            &a.collection_mint,
            &a.creator,
            &a.metadata_account,
            &a.token_program,
            &a.system_program,
            &a.rent,
            &signer_seeds,
        ),
    );
    calls.push(
        Invocation {
            program: a.token_metadata_program,
            instruction: CpiInstruction::SignMetadata { creator: a.collection_mint, metadata: a.metadata_account },
            signer_seeds: copy_seed_list(&signer_seeds),
        },
    );
    let event = Event {
        creator: a.creator,
        collection_mint_account: a.collection_mint,
        date: now,
        name,
        description: event_description,
    };
    config.event_count = config.event_count + 1;
    assert(invocations_view(calls@) =~= spec_initialize_event_calls(
        *accounts,
        *bumps,
        old(config).event_count,
        event.name@,
        symbol@,
        uri@,
    ));
    (event, calls)
}

} // verus!
