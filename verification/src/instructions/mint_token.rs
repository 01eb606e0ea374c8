//! `mint_token`: the configured authority mints the next ticket of an event
//! to a destination, named after the ticket's number.
use vstd::prelude::*;

use crate::cpi::{Collection, Invocation, InvocationView, invocations_view};
use crate::errors::{
    check_writable, first_error, lemma_first_error_append, lemma_first_error_at, lemma_first_error_none,
    lemma_first_error_none_each, writable_check,
    ProgramError,
};
use crate::instructions::shared::{
    create_master_edition, create_metadata_accounts, mint_to, set_and_verify_sized_collection_item,
    spec_create_master_edition, spec_create_metadata_accounts, spec_mint_to,
    spec_set_and_verify_sized_collection_item,
};
use crate::keys::Pubkey;
use crate::program_ids::{
    check_program, check_rent_sysvar, check_token_program, program_check, rent_sysvar_check, token_program_check,
    associated_token_id, metadata_id, spec_associated_token_id, spec_metadata_id, spec_system_id, system_id,
};
use crate::pda::{derived_at, found_address, associated_token_check, check_associated_token_account, bump_check, check_bump, check_found, found_bump, found_check};
use crate::seeds::{
    collection_mint_seeds, collection_signer_seeds, config_seeds, edition_seeds, event_seeds, metadata_seeds,
    spec_collection_mint_seeds, spec_collection_signer_seeds, spec_config_seeds, spec_edition_seeds,
    spec_associated_token_seeds, spec_event_seeds, spec_metadata_seeds, spec_token_mint_seeds, token_mint_seeds,
};
use crate::states::{Config, Event, EventView};
use crate::text::{numbered_name, token_name};

verus! {

/// The accounts of `mint_token`, by address.
#[derive(Clone, Copy, Debug)]
pub struct MintToken {
    /// Signs and pays; must be the configured authority.
    pub authority: Pubkey,
    /// Whether `authority` signed the transaction.
    pub authority_is_signer: bool,
    /// Whether each account written here was passed as writable.
    pub authority_is_writable: bool,
    /// Receives the ticket.
    pub destination: Pubkey,
    pub destination_is_writable: bool,
    /// The program configuration.
    pub config: Pubkey,
    /// The event, derived from `"event"` and its number.
    pub event: Pubkey,
    pub event_is_writable: bool,
    /// The event's collection mint, derived from `"collection_mint"` and the event number.
    pub collection_mint: Pubkey,
    pub collection_mint_is_writable: bool,
    /// Created here, derived from `"token_mint"`, the collection mint and the ticket number.
    pub token_mint: Pubkey,
    pub token_mint_is_writable: bool,
    /// The destination's token account for the new mint.
    pub destination_token_account: Pubkey,
    pub destination_token_account_is_writable: bool,
    /// The ticket's metadata account.
    pub metadata_account: Pubkey,
    pub metadata_account_is_writable: bool,
    /// The ticket's master edition account.
    pub edition_account: Pubkey,
    pub edition_account_is_writable: bool,
    /// The collection's metadata account.
    pub collection_metadata_account: Pubkey,
    pub collection_metadata_account_is_writable: bool,
    /// The collection's master edition account.
    pub collection_master_edition: Pubkey,
    pub collection_master_edition_is_writable: bool,
    pub token_program: Pubkey,
    pub token_metadata_program: Pubkey,
    pub associated_token_program: Pubkey,
    pub system_program: Pubkey,
    pub rent: Pubkey,
}

/// The bump seeds found for the accounts of `mint_token`.
#[derive(Clone, Copy, Debug, PartialEq, Eq, Structural)]
pub struct MintTokenBumps {
    pub token_mint: u8,
    pub event: u8,
    pub collection_mint: u8,
    pub metadata_account: u8,
    pub edition_account: u8,
    pub collection_metadata_account: u8,
    pub collection_master_edition: u8,
}

impl MintToken {
    /// The checks on the accounts, in the order they are made: first the
    /// new mint, then the others in their order.
    pub open spec fn checks(self, program_id: Pubkey, config: Config, event: EventView, event_id: u64) -> Seq<
        Option<ProgramError>,
    > {
        self.head_checks(program_id, config, event, event_id) + self.tail_checks(program_id, config, event, event_id)
    }

    /// The checks made before the configuration's: the signer, the programs
    /// handed in, the new mint and the destination's token account, and that
    /// the signer and the destination are writable.
    pub open spec fn head_checks(self, program_id: Pubkey, config: Config, event: EventView, event_id: u64) -> Seq<
        Option<ProgramError>,
    > {
        seq![
            if self.authority_is_signer {
                None
            } else {
                Some(ProgramError::AccountNotSigner)
            },
            token_program_check(self.token_program),
            program_check(self.token_metadata_program, spec_metadata_id()),
            program_check(self.associated_token_program, spec_associated_token_id()),
            program_check(self.system_program, spec_system_id()),
            rent_sysvar_check(self.rent),
            found_check(
                self.token_mint@,
                spec_token_mint_seeds(self.collection_mint, event.current_nft_count),
                program_id@,
            ),
            writable_check(self.token_mint_is_writable),
            associated_token_check(self.destination_token_account, self.destination, self.token_mint, self.token_program),
            writable_check(self.destination_token_account_is_writable),
            writable_check(self.authority_is_writable),
            writable_check(self.destination_is_writable),
        ]
    }

    /// The checks on the configuration, the event, the collection mint and
    /// the metadata accounts, in their order.
    pub open spec fn tail_checks(self, program_id: Pubkey, config: Config, event: EventView, event_id: u64) -> Seq<
        Option<ProgramError>,
    > {
        let mp = self.token_metadata_program;
        seq![
            bump_check(self.config@, spec_config_seeds(), config.bump, program_id@),
            if config.authority == self.authority {
                None
            } else {
                Some(ProgramError::ConstraintHasOne)
            },
            found_check(self.event@, spec_event_seeds(event_id), program_id@),
            writable_check(self.event_is_writable),
            if event.collection_mint_account == self.collection_mint {
                None
            } else {
                Some(ProgramError::ConstraintRaw)
            },
            found_check(self.collection_mint@, spec_collection_mint_seeds(event_id), program_id@),
            writable_check(self.collection_mint_is_writable),
            found_check(self.metadata_account@, spec_metadata_seeds(mp, self.token_mint), mp@),
            writable_check(self.metadata_account_is_writable),
            found_check(self.edition_account@, spec_edition_seeds(mp, self.token_mint), mp@),
            writable_check(self.edition_account_is_writable),
            found_check(self.collection_metadata_account@, spec_metadata_seeds(mp, self.collection_mint), mp@),
            writable_check(self.collection_metadata_account_is_writable),
            found_check(self.collection_master_edition@, spec_edition_seeds(mp, self.collection_mint), mp@),
            writable_check(self.collection_master_edition_is_writable),
        ]
    }


    pub open spec fn spec_bumps(self, program_id: Pubkey, event: EventView, event_id: u64) -> MintTokenBumps {
        let mp = self.token_metadata_program;
        MintTokenBumps {
            token_mint: found_bump(spec_token_mint_seeds(self.collection_mint, event.current_nft_count), program_id@),
            event: found_bump(spec_event_seeds(event_id), program_id@),
            collection_mint: found_bump(spec_collection_mint_seeds(event_id), program_id@),
            metadata_account: found_bump(spec_metadata_seeds(mp, self.token_mint), mp@),
            edition_account: found_bump(spec_edition_seeds(mp, self.token_mint), mp@),
            collection_metadata_account: found_bump(spec_metadata_seeds(mp, self.collection_mint), mp@),
            collection_master_edition: found_bump(spec_edition_seeds(mp, self.collection_mint), mp@),
        }
    }

    /// Checks the accounts' addresses, that the signer is the configured
    /// authority, and that the collection mint is the event's; gives the
    /// bump seeds found.
    pub fn try_accounts(&self, program_id: &Pubkey, config: &Config, event: &Event, event_id: u64) -> (res: Result<
        MintTokenBumps,
        ProgramError,
    >)
        ensures
            match res {
                Ok(bumps) => first_error(self.checks(*program_id, *config, event@, event_id)) is None && bumps
                    == self.spec_bumps(*program_id, event@, event_id)
                    && bump_check(self.collection_mint@, spec_collection_mint_seeds(event_id), bumps.collection_mint, program_id@)
                    is None,
                Err(e) => first_error(self.checks(*program_id, *config, event@, event_id)) == Some(e),
            },
    {
        proof {
            lemma_first_error_append(
                self.head_checks(*program_id, *config, event@, event_id),
                self.tail_checks(*program_id, *config, event@, event_id),
            );
        }
        let token_mint = match self.try_head_accounts(program_id, config, event, event_id) {
            Ok(b) => b,
            Err(e) => return Err(e),
        };
        self.try_tail_accounts(program_id, config, event, event_id, token_mint)
    }

    /// The checks of `head_checks`, in order; gives the new mint's bump seed.
    fn try_head_accounts(&self, program_id: &Pubkey, config: &Config, event: &Event, event_id: u64) -> (res: Result<
        u8,
        ProgramError,
    >)
        ensures
            match res {
                Ok(b) => first_error(self.head_checks(*program_id, *config, event@, event_id)) is None && b == found_bump(
                    spec_token_mint_seeds(self.collection_mint, event.current_nft_count),
                    program_id@,
                ),
                Err(e) => first_error(self.head_checks(*program_id, *config, event@, event_id)) == Some(e),
            },
    {
        let ghost checks = self.head_checks(*program_id, *config, event@, event_id);
        if !self.authority_is_signer {
            proof {
                lemma_first_error_at(checks, 0);
            }
            return Err(ProgramError::AccountNotSigner);
        }
        if let Some(e) = check_token_program(&self.token_program) {
            proof {
                lemma_first_error_at(checks, 1);
            }
            return Err(e);
        }
        if let Some(e) = check_program(&self.token_metadata_program, &metadata_id()) {
            proof {
                lemma_first_error_at(checks, 2);
            }
            return Err(e);
        }
        if let Some(e) = check_program(&self.associated_token_program, &associated_token_id()) {
            proof {
                lemma_first_error_at(checks, 3);
            }
            return Err(e);
        }
        if let Some(e) = check_program(&self.system_program, &system_id()) {
            proof {
                lemma_first_error_at(checks, 4);
            }
            return Err(e);
        }
        if let Some(e) = check_rent_sysvar(&self.rent) {
            proof {
                lemma_first_error_at(checks, 5);
            }
            return Err(e);
        }
        let token_mint = match check_found(
            &self.token_mint,
            &token_mint_seeds(&self.collection_mint, event.current_nft_count),
            program_id,
        ) {
            Ok(b) => b,
            Err(e) => {
                proof {
                    lemma_first_error_at(checks, 6);
                }
                return Err(e);
            },
        };
        if let Some(e) = check_writable(self.token_mint_is_writable) {
            proof {
                lemma_first_error_at(checks, 7);
            }
            return Err(e);
        }
        if let Some(e) = check_associated_token_account(&self.destination_token_account, &self.destination, &self.token_mint, &self.token_program) {
            proof {
                lemma_first_error_at(checks, 8);
            }
            return Err(e);
        }
        if let Some(e) = check_writable(self.destination_token_account_is_writable) {
            proof {
                lemma_first_error_at(checks, 9);
            }
            return Err(e);
        }
        if let Some(e) = check_writable(self.authority_is_writable) {
            proof {
                lemma_first_error_at(checks, 10);
            }
            return Err(e);
        }
        if let Some(e) = check_writable(self.destination_is_writable) {
            proof {
                lemma_first_error_at(checks, 11);
            }
            return Err(e);
        }
        proof {
            lemma_first_error_none(checks);
        }
        Ok(token_mint)
    }

    /// The checks of `tail_checks`, in order; gives all the bump seeds.
    #[verifier::spinoff_prover]
    #[verifier::rlimit(60)]
    fn try_tail_accounts(
        &self,
        program_id: &Pubkey,
        config: &Config,
        event: &Event,
        event_id: u64,
        token_mint: u8,
    ) -> (res: Result<MintTokenBumps, ProgramError>)
        requires
            token_mint == found_bump(spec_token_mint_seeds(self.collection_mint, event.current_nft_count), program_id@),
        ensures
            match res {
                Ok(bumps) => first_error(self.tail_checks(*program_id, *config, event@, event_id)) is None && bumps
                    == self.spec_bumps(*program_id, event@, event_id)
                    && bump_check(self.collection_mint@, spec_collection_mint_seeds(event_id), bumps.collection_mint, program_id@)
                    is None,
                Err(e) => first_error(self.tail_checks(*program_id, *config, event@, event_id)) == Some(e),
            },
    {
        let ghost checks = self.tail_checks(*program_id, *config, event@, event_id);
        let mp = &self.token_metadata_program;
        if let Some(e) = check_bump(&self.config, &config_seeds(), config.bump, program_id) {
            proof {
                lemma_first_error_at(checks, 0);
            }
            return Err(e);
        }
        if !config.authority.same_as(&self.authority) {
            proof {
                lemma_first_error_at(checks, 1);
            }
            return Err(ProgramError::ConstraintHasOne);
        }
        let event_bump = match check_found(&self.event, &event_seeds(event_id), program_id) {
            Ok(b) => b,
            Err(e) => {
                proof {
                    lemma_first_error_at(checks, 2);
                }
                return Err(e);
            },
        };
        if let Some(e) = check_writable(self.event_is_writable) {
            proof {
                lemma_first_error_at(checks, 3);
            }
            return Err(e);
        }
        if !event.collection_mint_account.same_as(&self.collection_mint) {
            proof {
                lemma_first_error_at(checks, 4);
            }
            return Err(ProgramError::ConstraintRaw);
        }
        let collection_mint = match check_found(&self.collection_mint, &collection_mint_seeds(event_id), program_id) {
            Ok(b) => b,
            Err(e) => {
                proof {
                    lemma_first_error_at(checks, 5);
                }
                return Err(e);
            },
        };
        if let Some(e) = check_writable(self.collection_mint_is_writable) {
            proof {
                lemma_first_error_at(checks, 6);
            }
            return Err(e);
        }
        let metadata_account = match check_found(&self.metadata_account, &metadata_seeds(mp, &self.token_mint), mp) {
            Ok(b) => b,
            Err(e) => {
                proof {
                    lemma_first_error_at(checks, 7);
                }
                return Err(e);
            },
        };
        if let Some(e) = check_writable(self.metadata_account_is_writable) {
            proof {
                lemma_first_error_at(checks, 8);
            }
            return Err(e);
        }
        let edition_account = match check_found(&self.edition_account, &edition_seeds(mp, &self.token_mint), mp) {
            Ok(b) => b,
            Err(e) => {
                proof {
                    lemma_first_error_at(checks, 9);
                }
                return Err(e);
            },
        };
        if let Some(e) = check_writable(self.edition_account_is_writable) {
            proof {
                lemma_first_error_at(checks, 10);
            }
            return Err(e);
        }
        let collection_metadata_account = match check_found(
            &self.collection_metadata_account,
            &metadata_seeds(mp, &self.collection_mint),
            mp,
        ) {
            Ok(b) => b,
            Err(e) => {
                proof {
                    lemma_first_error_at(checks, 11);
                }
                return Err(e);
            },
        };
        if let Some(e) = check_writable(self.collection_metadata_account_is_writable) {
            proof {
                lemma_first_error_at(checks, 12);
            }
            return Err(e);
        }
        let collection_master_edition = match check_found(
            &self.collection_master_edition,
            &edition_seeds(mp, &self.collection_mint),
            mp,
        ) {
            Ok(b) => b,
            Err(e) => {
                proof {
                    lemma_first_error_at(checks, 13);
                }
                return Err(e);
            },
        };
        if let Some(e) = check_writable(self.collection_master_edition_is_writable) {
            proof {
                lemma_first_error_at(checks, 14);
            }
            return Err(e);
        }
        proof {
            lemma_first_error_none(checks);
        }
        Ok(
            MintTokenBumps {
                token_mint,
                event: event_bump,
                collection_mint,
                metadata_account,
                edition_account,
                collection_metadata_account,
                collection_master_edition,
            },
        )
    }
}

/// The calls that `mint_token` makes, in order, the collection mint signing
/// each: mint one token of the new mint to the destination, create its
/// metadata (named `"<name> #<ticket number>"`, mutable, in the collection,
/// not yet verified) and its master edition, then add it to the collection
/// and verify it there.
pub open spec fn spec_mint_token_calls(
    accounts: MintToken,
    bumps: MintTokenBumps,
    event: EventView,
    event_id: u64,
    name: Seq<u8>,
    symbol: Seq<u8>,
    uri: Seq<u8>,
) -> Seq<InvocationView> {
    let a = accounts;
    let seeds = spec_collection_signer_seeds(event_id, bumps.collection_mint);
    seq![
        spec_mint_to(a.token_program, a.token_mint, a.destination_token_account, a.collection_mint, seeds),
        spec_create_metadata_accounts(
            a.token_metadata_program,
            a.metadata_account,
            a.token_mint,
            a.collection_mint,
            a.authority,
            a.system_program,
            a.rent,
            seeds,
            numbered_name(name, event.current_nft_count as nat),
            symbol,
            uri,
            0,
            Some(Collection { key: a.collection_mint, verified: false }),
            true,
            None,
        ),
        spec_create_master_edition(
            a.token_metadata_program,
            a.edition_account,
            a.token_mint,
            a.collection_mint,
            a.authority,
            a.metadata_account,
            a.token_program,
            a.system_program,
            a.rent,
            seeds,
        ),
        spec_set_and_verify_sized_collection_item(
            a.token_metadata_program,
            a.metadata_account,
            a.authority,
            a.collection_mint,
            a.collection_metadata_account,
            a.collection_master_edition,
            seeds,
        ),
    ]
}

/// Mints the event's next ticket: gives the calls to make and counts one
/// more ticket in the event.
pub fn process_mint_token(
    program_id: &Pubkey,
    accounts: &MintToken,
    bumps: &MintTokenBumps,
    config: &Config,
    event: &mut Event,
    event_id: u64,
    name: Vec<u8>,
    symbol: Vec<u8>,
    uri: Vec<u8>,
) -> (res: Vec<Invocation>)
    requires
        old(event).current_nft_count < u64::MAX,
        first_error(accounts.checks(*program_id, *config, old(event)@, event_id)) is None,
        *bumps == accounts.spec_bumps(*program_id, old(event)@, event_id),
    ensures
        found_address(spec_token_mint_seeds(accounts.collection_mint, old(event).current_nft_count), program_id@)
            == Some((accounts.token_mint@, bumps.token_mint)),
        derived_at(
            spec_associated_token_seeds(accounts.destination, accounts.token_mint, accounts.token_program),
            spec_associated_token_id(),
            accounts.destination_token_account@,
        ),
        invocations_view(res@) == spec_mint_token_calls(
            *accounts,
            *bumps,
            old(event)@,
            event_id,
            name@,
            symbol@,
            uri@,
        ),
        final(event)@ == (EventView { current_nft_count: (old(event).current_nft_count + 1) as u64, ..old(event)@ }),
{
    proof {
        let checks = accounts.checks(*program_id, *config, event@, event_id);
        lemma_first_error_none_each(checks, 6);
        lemma_first_error_none_each(checks, 8);
    }
    let a = accounts;
    let signer_seeds = collection_signer_seeds(event_id, bumps.collection_mint);
    let mut calls: Vec<Invocation> = Vec::new();
    calls.push(mint_to(&a.token_program, &a.token_mint, &a.destination_token_account, &a.collection_mint, &signer_seeds));
    let numbered = token_name(&name, event.current_nft_count);
    calls.push(
        create_metadata_accounts(
            &a.token_metadata_program,
            &a.metadata_account,
            &a.token_mint,
            &a.collection_mint,
            &a.authority,
            &a.system_program,
            &a.rent,
            &signer_seeds,
            numbered,
            symbol,
            uri,
            0,
            Some(Collection { key: a.collection_mint, verified: false }),
            true,
            None,
        ),
    );
    calls.push(
        create_master_edition(
            &a.token_metadata_program,
            &a.edition_account,
            &a.token_mint,
            &a.collection_mint,
            &a.authority,
            &a.metadata_account,
            &a.token_program,
            &a.system_program,
            &a.rent,
            &signer_seeds,
        ),
    );
    calls.push(
        set_and_verify_sized_collection_item(
            &a.token_metadata_program,
            &a.metadata_account,
            &a.authority,
            &a.collection_mint,
            &a.collection_metadata_account,
            &a.collection_master_edition,
            &signer_seeds,
        ),
    );
    event.current_nft_count = event.current_nft_count + 1;
    assert(invocations_view(calls@) =~= spec_mint_token_calls(
        *accounts,
        *bumps,
        old(event)@,
        event_id,
        name@,
        symbol@,
        uri@,
    ));
    calls
}

} // verus!
