//! `update_token_metadata`: the configured authority points a ticket's
//! metadata at a new URI, keeping the rest of it.
use vstd::prelude::*;

use crate::cpi::{copy_creators, CpiInstruction, CpiInstructionView, DataV2, DataV2View, Invocation, InvocationView, MetadataAccount};
use crate::errors::{
    check_writable, first_error, lemma_first_error_at, lemma_first_error_none, writable_check, DappError, ProgramError,
};
use crate::keys::Pubkey;
use crate::program_ids::{
    check_program, program_check, metadata_id, spec_metadata_id, };
use crate::pda::{bump_check, check_bump, check_found, found_bump, found_check};
use crate::seeds::{
    collection_mint_seeds, collection_signer_seeds, config_seeds, edition_seeds, event_seeds, metadata_seeds,
    spec_collection_mint_seeds, spec_collection_signer_seeds, spec_config_seeds, spec_edition_seeds,
    spec_event_seeds, spec_metadata_seeds, spec_token_mint_seeds, token_mint_seeds,
};
use crate::states::{Config, Event, EventView};
use crate::text::copy_bytes;

verus! {

/// The accounts of `update_token_metadata`, by address.
#[derive(Clone, Copy, Debug)]
pub struct UpdateTokenMetadata {
    /// Signs; must be the configured authority.
    pub authority: Pubkey,
    /// Whether `authority` signed the transaction.
    pub authority_is_signer: bool,
    /// Whether each account written here was passed as writable.
    pub authority_is_writable: bool,
    /// The program configuration.
    pub config: Pubkey,
    /// The event, derived from `"event"` and its number.
    pub event: Pubkey,
    /// The ticket's mint, derived from `"token_mint"`, the collection mint and the ticket number.
    pub token_mint: Pubkey,
    pub token_mint_is_writable: bool,
    /// The event's collection mint, derived from `"collection_mint"` and the event number.
    pub collection_mint: Pubkey,
    pub collection_mint_is_writable: bool,
    /// The ticket's metadata account.
    pub metadata_account: Pubkey,
    pub metadata_account_is_writable: bool,
    /// The ticket's master edition account.
    pub edition_account: Pubkey,
    pub edition_account_is_writable: bool,
    pub token_metadata_program: Pubkey,
}

/// The bump seeds found for the accounts of `update_token_metadata`.
#[derive(Clone, Copy, Debug, PartialEq, Eq, Structural)]
pub struct UpdateTokenMetadataBumps {
    pub token_mint: u8,
    pub collection_mint: u8,
    pub metadata_account: u8,
    pub edition_account: u8,
}

impl UpdateTokenMetadata {
    /// The checks on the accounts, in the order they are made.
    pub open spec fn checks(
        self,
        program_id: Pubkey,
        config: Config,
        event: EventView,
        event_id: u64,
        token_id: u64,
    ) -> Seq<Option<ProgramError>> {
        let mp = self.token_metadata_program;
        seq![
            if self.authority_is_signer {
                None
            } else {
                Some(ProgramError::AccountNotSigner)
            },
            program_check(self.token_metadata_program, spec_metadata_id()),
            writable_check(self.authority_is_writable),
            bump_check(self.config@, spec_config_seeds(), config.bump, program_id@),
            if config.authority == self.authority {
                None
            } else {
                Some(ProgramError::Custom(DappError::InvalidAuthority))
            },
            bump_check(self.event@, spec_event_seeds(event_id), event.bump, program_id@),
            if event.collection_mint_account == self.collection_mint {
                None
            } else {
                Some(ProgramError::ConstraintRaw)
            },
            found_check(self.token_mint@, spec_token_mint_seeds(self.collection_mint, token_id), program_id@),
            writable_check(self.token_mint_is_writable),
            found_check(self.collection_mint@, spec_collection_mint_seeds(event_id), program_id@),
            writable_check(self.collection_mint_is_writable),
            found_check(self.metadata_account@, spec_metadata_seeds(mp, self.token_mint), mp@),
            writable_check(self.metadata_account_is_writable),
            found_check(self.edition_account@, spec_edition_seeds(mp, self.token_mint), mp@),
            writable_check(self.edition_account_is_writable),
        ]
    }

    pub open spec fn spec_bumps(self, program_id: Pubkey, event_id: u64, token_id: u64) -> UpdateTokenMetadataBumps {
        let mp = self.token_metadata_program;
        UpdateTokenMetadataBumps {
            token_mint: found_bump(spec_token_mint_seeds(self.collection_mint, token_id), program_id@),
            collection_mint: found_bump(spec_collection_mint_seeds(event_id), program_id@),
            metadata_account: found_bump(spec_metadata_seeds(mp, self.token_mint), mp@),
            edition_account: found_bump(spec_edition_seeds(mp, self.token_mint), mp@),
        }
    }

    /// Checks the accounts' addresses, that the signer is the configured
    /// authority and that the collection mint is the event's; gives the
    /// bump seeds found.
    pub fn try_accounts(
        &self,
        program_id: &Pubkey,
        config: &Config,
        event: &Event,
        event_id: u64,
        token_id: u64,
    ) -> (res: Result<UpdateTokenMetadataBumps, ProgramError>)
        ensures
            match res {
                Ok(bumps) => first_error(self.checks(*program_id, *config, event@, event_id, token_id)) is None
                    && bumps == self.spec_bumps(*program_id, event_id, token_id) && bump_check(
                    self.collection_mint@,
                    spec_collection_mint_seeds(event_id),
                    bumps.collection_mint,
                    program_id@,
                ) is None,
                Err(e) => first_error(self.checks(*program_id, *config, event@, event_id, token_id)) == Some(e),
            },
    {
        let ghost checks = self.checks(*program_id, *config, event@, event_id, token_id);
        if !self.authority_is_signer {
            proof {
                lemma_first_error_at(checks, 0);
            }
            return Err(ProgramError::AccountNotSigner);
        }
        if let Some(e) = check_program(&self.token_metadata_program, &metadata_id()) {
            proof {
                lemma_first_error_at(checks, 1);
            }
            return Err(e);
        }
        if let Some(e) = check_writable(self.authority_is_writable) {
            proof {
                lemma_first_error_at(checks, 2);
            }
            return Err(e);
        }
        let mp = &self.token_metadata_program;
        if let Some(e) = check_bump(&self.config, &config_seeds(), config.bump, program_id) {
            proof {
                lemma_first_error_at(checks, 3);
            }
            return Err(e);
        }
        if !config.authority.same_as(&self.authority) {
            proof {
                lemma_first_error_at(checks, 4);
            }
            return Err(ProgramError::Custom(DappError::InvalidAuthority));
        }
        if let Some(e) = check_bump(&self.event, &event_seeds(event_id), event.bump, program_id) {
            proof {
                lemma_first_error_at(checks, 5);
            }
            return Err(e);
        }
        if !event.collection_mint_account.same_as(&self.collection_mint) {
            proof {
                lemma_first_error_at(checks, 6);
            }
            return Err(ProgramError::ConstraintRaw);
        }
        let token_mint = match check_found(&self.token_mint, &token_mint_seeds(&self.collection_mint, token_id), program_id) {
            Ok(b) => b,
            Err(e) => {
                proof {
                    lemma_first_error_at(checks, 7);
                }
                return Err(e);
            },
        };
        if let Some(e) = check_writable(self.token_mint_is_writable) {
            proof {
                lemma_first_error_at(checks, 8);
            }
            return Err(e);
        }
        let collection_mint = match check_found(&self.collection_mint, &collection_mint_seeds(event_id), program_id) {
            Ok(b) => b,
            Err(e) => {
                proof {
                    lemma_first_error_at(checks, 9);
                }
                return Err(e);
            },
        };
        if let Some(e) = check_writable(self.collection_mint_is_writable) {
            proof {
                lemma_first_error_at(checks, 10);
            }
            return Err(e);
        }
        let metadata_account = match check_found(&self.metadata_account, &metadata_seeds(mp, &self.token_mint), mp) {
            Ok(b) => b,
            Err(e) => {
                proof {
                    lemma_first_error_at(checks, 11);
                }
                return Err(e);
            },
        };
        if let Some(e) = check_writable(self.metadata_account_is_writable) {
            proof {
                lemma_first_error_at(checks, 12);
            }
            return Err(e);
        }
        let edition_account = match check_found(&self.edition_account, &edition_seeds(mp, &self.token_mint), mp) {
            Ok(b) => b,
            Err(e) => {
                proof {
                    lemma_first_error_at(checks, 13);
                }
                return Err(e);
            },
        };
        if let Some(e) = check_writable(self.edition_account_is_writable) {
            proof {
                lemma_first_error_at(checks, 14);
            }
            return Err(e);
        }
        proof {
            lemma_first_error_none(checks);
        }
        Ok(UpdateTokenMetadataBumps { token_mint, collection_mint, metadata_account, edition_account })
    }
}

/// The one call that `update_token_metadata` makes, the collection mint
/// signing as update authority: the metadata is rewritten with the new URI
/// and every other field as stored, the update authority is kept, the
/// primary sale flag is left alone, and the metadata stays mutable.
pub open spec fn spec_update_token_metadata_call(
    accounts: UpdateTokenMetadata,
    bumps: UpdateTokenMetadataBumps,
    metadata: DataV2View,
    event_id: u64,
    uri: Seq<u8>,
) -> InvocationView {
    InvocationView {
        program: accounts.token_metadata_program,
        instruction: CpiInstructionView::UpdateMetadataAccountsV2 {
            metadata: accounts.metadata_account,
            update_authority: accounts.collection_mint,
            new_update_authority: None,
            data: Some(DataV2View { uri, ..metadata }),
            primary_sale_happened: None,
            is_mutable: Some(true),
        },
        signer_seeds: spec_collection_signer_seeds(event_id, bumps.collection_mint),
    }
}

/// The data that `update_token_metadata` sends for a ticket whose metadata
/// holds `metadata`: the same data with the new URI.
pub open spec fn updated_metadata(metadata: DataV2View, uri: Seq<u8>) -> DataV2View {
    DataV2View { uri, ..metadata }
}

/// The data that a call of `update_token_metadata` sends is the stored data
/// with the new URI in place.  So, where the metadata program stores what
/// it is sent, the same update made again on the data it left sends that
/// same data again and changes nothing.
pub proof fn lemma_update_metadata_idempotent(
    accounts: UpdateTokenMetadata,
    bumps: UpdateTokenMetadataBumps,
    metadata: DataV2View,
    event_id: u64,
    uri: Seq<u8>,
)
    ensures
        spec_update_token_metadata_call(accounts, bumps, metadata, event_id, uri).instruction
            == (CpiInstructionView::UpdateMetadataAccountsV2 {
            metadata: accounts.metadata_account,
            update_authority: accounts.collection_mint,
            new_update_authority: None,
            data: Some(updated_metadata(metadata, uri)),
            primary_sale_happened: None,
            is_mutable: Some(true),
        }),
        spec_update_token_metadata_call(accounts, bumps, updated_metadata(metadata, uri), event_id, uri)
            == spec_update_token_metadata_call(accounts, bumps, metadata, event_id, uri),
{
    assert(updated_metadata(updated_metadata(metadata, uri), uri) == updated_metadata(metadata, uri));
}

/// Pointing a ticket's metadata at a new URI and then back at the URI it
/// had gives back the metadata it started with: where the metadata program
/// stores what it is sent, the second update sends exactly the first data.
pub proof fn lemma_update_metadata_round_trip(
    accounts: UpdateTokenMetadata,
    bumps: UpdateTokenMetadataBumps,
    metadata: DataV2View,
    event_id: u64,
    uri: Seq<u8>,
)
    ensures
        updated_metadata(updated_metadata(metadata, uri), metadata.uri) == metadata,
        spec_update_token_metadata_call(accounts, bumps, updated_metadata(metadata, uri), event_id, metadata.uri)
            == spec_update_token_metadata_call(accounts, bumps, metadata, event_id, metadata.uri),
{
    assert(updated_metadata(updated_metadata(metadata, uri), metadata.uri) == metadata);
}

/// Gives the call that replaces the ticket's URI.
pub fn process_update_token_metadata(
    accounts: &UpdateTokenMetadata,
    bumps: &UpdateTokenMetadataBumps,
    metadata: &MetadataAccount,
    event_id: u64,
    _token_id: u64,
    uri: Vec<u8>,
) -> (res: Invocation)
    ensures
        res@ == spec_update_token_metadata_call(*accounts, *bumps, metadata@, event_id, uri@),
{
    let data = DataV2 {
        name: copy_bytes(&metadata.name),
        symbol: copy_bytes(&metadata.symbol),
        uri,
        seller_fee_basis_points: metadata.seller_fee_basis_points,
        creators: copy_creators(&metadata.creators),
        collection: metadata.collection,
        uses: metadata.uses,
    };
    Invocation {
        program: accounts.token_metadata_program,
        instruction: CpiInstruction::UpdateMetadataAccountsV2 {
            metadata: accounts.metadata_account,
            update_authority: accounts.collection_mint,
            new_update_authority: None,
            data: Some(data),
            primary_sale_happened: None,
            is_mutable: Some(true),
        },
        signer_seeds: collection_signer_seeds(event_id, bumps.collection_mint),
    }
}

} // verus!
