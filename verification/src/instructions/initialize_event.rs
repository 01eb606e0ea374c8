//! `initialize_event`: create an event together with its collection, a
//! one-of-a-kind token that the event's tickets will belong to.
use vstd::prelude::*;

use crate::cpi::{CollectionDetails, CpiInstruction, CpiInstructionView, Invocation, InvocationView, invocations_view};
use crate::errors::{check_writable, first_error, lemma_first_error_at, lemma_first_error_none, writable_check, ProgramError};
use crate::instructions::shared::{
    create_master_edition, create_metadata_accounts, mint_to, spec_create_master_edition,
    spec_create_metadata_accounts, spec_mint_to,
};
use crate::keys::Pubkey;
use crate::program_ids::{
    check_program, check_rent_sysvar, check_token_program, program_check, rent_sysvar_check, token_program_check,
    metadata_id, spec_metadata_id, spec_system_id, system_id,
};
use crate::pda::{bump_check, check_bump, check_found, found_bump, found_check};
use crate::seeds::{
    collection_mint_seeds, collection_signer_seeds, collection_token_account_seeds, config_seeds, copy_seed_list,
    edition_seeds, event_seeds, metadata_seeds, spec_collection_mint_seeds, spec_collection_signer_seeds,
    spec_collection_token_account_seeds, spec_config_seeds, spec_edition_seeds, spec_event_seeds, spec_metadata_seeds,
};
use crate::states::{Config, Event, EventView};

verus! {

/// The accounts of `initialize_event`, by address.
#[derive(Clone, Copy, Debug)]
pub struct InitializeEvent {
    /// Signs and pays; becomes the event's creator.
    pub creator: Pubkey,
    /// Whether `creator` signed the transaction.
    pub creator_is_signer: bool,
    /// Whether each account written here was passed as writable.
    pub creator_is_writable: bool,
    /// Created here, derived from `"event"` and the number of events so far.
    pub event: Pubkey,
    pub event_is_writable: bool,
    /// The program configuration.
    pub config: Pubkey,
    pub config_is_writable: bool,
    /// The event's collection mint, derived from `"collection_mint"` and the event number.
    pub collection_mint: Pubkey,
    pub collection_mint_is_writable: bool,
    /// Holds the collection token, derived from `"collection_token_account"` and the event number.
    pub collection_token_account: Pubkey,
    pub collection_token_account_is_writable: bool,
    /// The collection's metadata account, derived under the metadata program.
    pub metadata_account: Pubkey,
    pub metadata_account_is_writable: bool,
    /// The collection's master edition account, derived under the metadata program.
    pub edition_account: Pubkey,
    pub edition_account_is_writable: bool,
    pub token_program: Pubkey,
    pub token_metadata_program: Pubkey,
    pub system_program: Pubkey,
    pub rent: Pubkey,
}

/// The bump seeds found for the accounts of `initialize_event`.
#[derive(Clone, Copy, Debug, PartialEq, Eq, Structural)]
pub struct InitializeEventBumps {
    pub event: u8,
    pub collection_mint: u8,
    pub collection_token_account: u8,
    pub metadata_account: u8,
    pub edition_account: u8,
}

impl InitializeEvent {
    /// The checks on the accounts, in the order they are made: first the
    /// accounts created here, then the others in their order.
    pub open spec fn checks(self, program_id: Pubkey, config: Config) -> Seq<Option<ProgramError>> {
        let n = config.event_count;
        seq![
            if self.creator_is_signer {
                None
            } else {
                Some(ProgramError::AccountNotSigner)
            },
            token_program_check(self.token_program),
            program_check(self.token_metadata_program, spec_metadata_id()),
            program_check(self.system_program, spec_system_id()),
            rent_sysvar_check(self.rent),
            found_check(self.event@, spec_event_seeds(n), program_id@),
            writable_check(self.event_is_writable),
            found_check(self.collection_mint@, spec_collection_mint_seeds(n), program_id@),
            writable_check(self.collection_mint_is_writable),
            found_check(self.collection_token_account@, spec_collection_token_account_seeds(n), program_id@),
            writable_check(self.collection_token_account_is_writable),
            writable_check(self.creator_is_writable),
            bump_check(self.config@, spec_config_seeds(), config.bump, program_id@),
            writable_check(self.config_is_writable),
            found_check(
                self.metadata_account@,
                spec_metadata_seeds(self.token_metadata_program, self.collection_mint),
                self.token_metadata_program@,
            ),
            writable_check(self.metadata_account_is_writable),
            found_check(
                self.edition_account@,
                spec_edition_seeds(self.token_metadata_program, self.collection_mint),
                self.token_metadata_program@,
            ),
            writable_check(self.edition_account_is_writable),
        ]
    }

    pub open spec fn spec_bumps(self, program_id: Pubkey, config: Config) -> InitializeEventBumps {
        let n = config.event_count;
        InitializeEventBumps {
            event: found_bump(spec_event_seeds(n), program_id@),
            collection_mint: found_bump(spec_collection_mint_seeds(n), program_id@),
            collection_token_account: found_bump(spec_collection_token_account_seeds(n), program_id@),
            metadata_account: found_bump(
                spec_metadata_seeds(self.token_metadata_program, self.collection_mint),
                self.token_metadata_program@,
            ),
            edition_account: found_bump(
                spec_edition_seeds(self.token_metadata_program, self.collection_mint),
                self.token_metadata_program@,
            ),
        }
    }

    /// Checks that every account is at the address derived from its seeds;
    /// gives the bump seeds found.  The event's bump then re-derives the
    /// event's address.
    #[verifier::spinoff_prover]
    #[verifier::rlimit(50)]
    pub fn try_accounts(&self, program_id: &Pubkey, config: &Config) -> (res: Result<InitializeEventBumps, ProgramError>)
        ensures
            match res {
                Ok(bumps) => {
                    &&& first_error(self.checks(*program_id, *config)) is None
                    &&& bumps == self.spec_bumps(*program_id, *config)
                    &&& bump_check(self.event@, spec_event_seeds(config.event_count), bumps.event, program_id@) is None
                    &&& bump_check(
                        self.collection_mint@,
                        spec_collection_mint_seeds(config.event_count),
                        bumps.collection_mint,
                        program_id@,
                    ) is None
                },
                Err(e) => first_error(self.checks(*program_id, *config)) == Some(e),
            },
    {
        let ghost checks = self.checks(*program_id, *config);
        if !self.creator_is_signer {
            proof {
                lemma_first_error_at(checks, 0);
            }
            return Err(ProgramError::AccountNotSigner);
        }
        if let Some(e) = check_token_program(&self.token_program) {
            proof {
                lemma_first_error_at(checks, 1);
            }
            return Err(e);
        }
        if let Some(e) = check_program(&self.token_metadata_program, &metadata_id()) {
            proof {
                lemma_first_error_at(checks, 2);
            }
            return Err(e);
        }
        if let Some(e) = check_program(&self.system_program, &system_id()) {
            proof {
                lemma_first_error_at(checks, 3);
            }
            return Err(e);
        }
        if let Some(e) = check_rent_sysvar(&self.rent) {
            proof {
                lemma_first_error_at(checks, 4);
            }
            return Err(e);
        }
        let n = config.event_count;
        let event = match check_found(&self.event, &event_seeds(n), program_id) {
            Ok(b) => b,
            Err(e) => {
                proof {
                    lemma_first_error_at(checks, 5);
                }
                return Err(e);
            },
        };
        if let Some(e) = check_writable(self.event_is_writable) {
            proof {
                lemma_first_error_at(checks, 6);
            }
            return Err(e);
        }
        let collection_mint = match check_found(&self.collection_mint, &collection_mint_seeds(n), program_id) {
            Ok(b) => b,
            Err(e) => {
                proof {
                    lemma_first_error_at(checks, 7);
                }
                return Err(e);
            },
        };
        if let Some(e) = check_writable(self.collection_mint_is_writable) {
            proof {
                lemma_first_error_at(checks, 8);
            }
            return Err(e);
        }
        let collection_token_account = match check_found(
            &self.collection_token_account,
            &collection_token_account_seeds(n),
            program_id,
        ) {
            Ok(b) => b,
            Err(e) => {
                proof {
                    lemma_first_error_at(checks, 9);
                }
                return Err(e);
            },
        };
        if let Some(e) = check_writable(self.collection_token_account_is_writable) {
            proof {
                lemma_first_error_at(checks, 10);
            }
            return Err(e);
        }
        if let Some(e) = check_writable(self.creator_is_writable) {
            proof {
                lemma_first_error_at(checks, 11);
            }
            return Err(e);
        }
        if let Some(e) = check_bump(&self.config, &config_seeds(), config.bump, program_id) {
            proof {
                lemma_first_error_at(checks, 12);
            }
            return Err(e);
        }
        if let Some(e) = check_writable(self.config_is_writable) {
            proof {
                lemma_first_error_at(checks, 13);
            }
            return Err(e);
        }
        let metadata_account = match check_found(
            &self.metadata_account,
            &metadata_seeds(&self.token_metadata_program, &self.collection_mint),
            &self.token_metadata_program,
        ) {
            Ok(b) => b,
            Err(e) => {
                proof {
                    lemma_first_error_at(checks, 14);
                }
                return Err(e);
            },
        };
        if let Some(e) = check_writable(self.metadata_account_is_writable) {
            proof {
                lemma_first_error_at(checks, 15);
            }
            return Err(e);
        }
        let edition_account = match check_found(
            &self.edition_account,
            &edition_seeds(&self.token_metadata_program, &self.collection_mint),
            &self.token_metadata_program,
        ) {
            Ok(b) => b,
            Err(e) => {
                proof {
                    lemma_first_error_at(checks, 16);
                }
                return Err(e);
            },
        };
        if let Some(e) = check_writable(self.edition_account_is_writable) {
            proof {
                lemma_first_error_at(checks, 17);
            }
            return Err(e);
        }
        proof {
            lemma_first_error_none(checks);
        }
        Ok(InitializeEventBumps { event, collection_mint, collection_token_account, metadata_account, edition_account })
    }
}

/// The event that `initialize_event` writes.
pub open spec fn spec_new_event(
    accounts: InitializeEvent,
    bumps: InitializeEventBumps,
    now: i64,
    name: Seq<u8>,
    description: Seq<u8>,
) -> EventView {
    EventView {
        creator: accounts.creator,
        collection_mint_account: accounts.collection_mint,
        current_nft_count: 0,
        current_digital_access_count: 0,
        date: now,
        ticket_price: 0,
        name,
        description,
        bump: bumps.event,
    }
}

/// The calls that `initialize_event` makes, in order, the collection mint
/// signing each with its seeds: mint the one collection token, create its
/// metadata (a sized collection, not mutable) and its master edition, and
/// sign the metadata as its creator.
pub open spec fn spec_initialize_event_calls(
    accounts: InitializeEvent,
    bumps: InitializeEventBumps,
    event_count: u64,
    name: Seq<u8>,
    symbol: Seq<u8>,
    uri: Seq<u8>,
) -> Seq<InvocationView> {
    let a = accounts;
    let seeds = spec_collection_signer_seeds(event_count, bumps.collection_mint);
    seq![
        spec_mint_to(a.token_program, a.collection_mint, a.collection_token_account, a.collection_mint, seeds),
        spec_create_metadata_accounts(
            a.token_metadata_program,
            a.metadata_account,
            a.collection_mint,
            a.collection_mint,
            a.creator,
            a.system_program,
            a.rent,
            seeds,
            name,
            symbol,
            uri,
            0,
            None,
            false,
            Some(CollectionDetails::V1 { size: 0 }),
        ),
        spec_create_master_edition(
            a.token_metadata_program,
            a.edition_account,
            a.collection_mint,
            a.collection_mint,
            a.creator,
            a.metadata_account,
            a.token_program,
            a.system_program,
            a.rent,
            seeds,
        ),
        InvocationView {
            program: a.token_metadata_program,
            instruction: CpiInstructionView::SignMetadata { creator: a.collection_mint, metadata: a.metadata_account },
            signer_seeds: seeds,
        },
    ]
}

/// Creates the event and its collection: gives the new event and the calls
/// to make, and counts one more event in the configuration.
pub fn process_initialize_event(
    accounts: &InitializeEvent,
    bumps: &InitializeEventBumps,
    config: &mut Config,
    now: i64,
    name: Vec<u8>,
    symbol: Vec<u8>,
    uri: Vec<u8>,
    event_description: Vec<u8>,
) -> (res: (Event, Vec<Invocation>))
    requires
        old(config).event_count < u64::MAX,
    ensures
        res.0@ == spec_new_event(*accounts, *bumps, now, name@, event_description@),
        invocations_view(res.1@) == spec_initialize_event_calls(
            *accounts,
            *bumps,
            old(config).event_count,
            name@,
            symbol@,
            uri@,
        ),
        *final(config) == (Config { event_count: (old(config).event_count + 1) as u64, ..*old(config) }),
{
    let a = accounts;
    let signer_seeds = collection_signer_seeds(config.event_count, bumps.collection_mint);
    let mut calls: Vec<Invocation> = Vec::new();
    calls.push(mint_to(&a.token_program, &a.collection_mint, &a.collection_token_account, &a.collection_mint, &signer_seeds));
    calls.push(
        create_metadata_accounts(
            &a.token_metadata_program,
            &a.metadata_account,
            &a.collection_mint,
            &a.collection_mint,
            &a.creator,
            &a.system_program,
            &a.rent,
            &signer_seeds,
            crate::text::copy_bytes(&name),
            symbol,
            uri,
            0,
            None,
            false,
            Some(CollectionDetails::V1 { size: 0 }),
        ),
    );
    calls.push(
        create_master_edition(
            &a.token_metadata_program,
            &a.edition_account,
            &a.collection_mint,
            &a.collection_mint,
            &a.creator,
            &a.metadata_account,
            &a.token_program,
            &a.system_program,
            &a.rent,
            &signer_seeds,
        ),
    );
    calls.push(
        Invocation {
            program: a.token_metadata_program,
            instruction: CpiInstruction::SignMetadata { creator: a.collection_mint, metadata: a.metadata_account },
            signer_seeds: copy_seed_list(&signer_seeds),
        },
    );
    let event = Event {
        creator: a.creator,
        collection_mint_account: a.collection_mint,
        current_nft_count: 0,
        current_digital_access_count: 0,
        date: now,
        ticket_price: 0,
        name,
        description: event_description,
        bump: bumps.event,
    };
    config.event_count = config.event_count + 1;
    assert(invocations_view(calls@) =~= spec_initialize_event_calls(
        *accounts,
        *bumps,
        old(config).event_count,
        event.name@,
        symbol@,
        uri@,
    ));
    (event, calls)
}

} // verus!
