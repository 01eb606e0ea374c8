//! What the calls of each instruction are for, stated over the accounts
//! that the checks accepted: who pays, which account receives the token,
//! which mint each metadata account and edition is for, and that the
//! collection mint signs with the seeds of its own address.
use vstd::prelude::*;

use crate::cpi::{Collection, CollectionDetails, CpiInstructionView, Creator, DataV2View, InvocationView};
use crate::errors::{first_error, lemma_first_error_none_each};
use crate::instructions::add_digital_access::{spec_new_digital_access, AddDigitalAccess};
use crate::instructions::buy_token::{spec_buy_token_calls, BuyToken};
use crate::contracts::spec_new_event as contracts_new_event;
use crate::instructions::initialize_config::{spec_initialize_config, InitializeConfig};
use crate::instructions::initialize_event::{spec_initialize_event_calls, spec_new_event, InitializeEvent};
use crate::instructions::update_token_metadata::{spec_update_token_metadata_call, UpdateTokenMetadata};
use crate::instructions::mint_token::{spec_mint_token_calls, MintToken};
use crate::keys::Pubkey;
use crate::pda::{derived_at, found_address, found_bump};
use crate::program_ids::spec_associated_token_id;
use crate::seeds::{
    spec_associated_token_seeds, spec_collection_mint_seeds, spec_collection_token_account_seeds, spec_config_seeds,
    spec_digital_access_seeds, spec_treasury_seeds, spec_edition_seeds, spec_event_seeds, spec_metadata_seeds, spec_token_mint_seeds,
};
use crate::states::{Config, EventView};
use crate::text::numbered_name;

verus! {

/// Seeds with which `mint` signs as the collection mint of event `n`: the
/// seeds of its own address under `program_id` followed by the bump that
/// the address search found for it.
pub open spec fn signs_as_collection(
    signer_seeds: Seq<Seq<u8>>,
    n: u64,
    mint: Pubkey,
    program_id: Pubkey,
) -> bool {
    let b = found_bump(spec_collection_mint_seeds(n), program_id@);
    &&& found_address(spec_collection_mint_seeds(n), program_id@) == Some((mint@, b))
    &&& signer_seeds == spec_collection_mint_seeds(n).push(seq![b])
}

/// The metadata that a ticket or collection is created with: `authority`
/// is its sole, verified creator.
pub open spec fn created_data(
    name: Seq<u8>,
    symbol: Seq<u8>,
    uri: Seq<u8>,
    authority: Pubkey,
    collection: Option<Collection>,
) -> DataV2View {
    DataV2View {
        name,
        symbol,
        uri,
        seller_fee_basis_points: 0,
        creators: Some(seq![Creator { address: authority, verified: true, share: 100 }]),
        collection,
        uses: None,
    }
}

/// A ticket minted by the authority: one token of the new ticket mint (the
/// mint derived from the event's collection and the ticket's number) goes
/// into the destination's associated token account for that mint; the
/// ticket's metadata and master edition are those derived from the ticket
/// mint, are paid by the signing authority and name the ticket after its
/// number; the ticket joins the event's own collection; and every call is
/// signed by the event's collection mint with the seeds of its address.
#[verifier::rlimit(50)]
pub proof fn lemma_mint_token_calls(
    program_id: Pubkey,
    accounts: MintToken,
    config: Config,
    event: EventView,
    event_id: u64,
    name: Seq<u8>,
    symbol: Seq<u8>,
    uri: Seq<u8>,
)
    requires
        first_error(accounts.checks(program_id, config, event, event_id)) is None,
    ensures
        ({
            let a = accounts;
            let mp = a.token_metadata_program;
            let calls = spec_mint_token_calls(a, a.spec_bumps(program_id, event, event_id), event, event_id, name, symbol, uri);
            &&& calls.len() == 4
            &&& forall|i: int| 0 <= i < 4 ==> signs_as_collection(#[trigger] calls[i].signer_seeds, event_id, a.collection_mint, program_id)
            &&& derived_at(spec_collection_mint_seeds(event_id), program_id@, a.collection_mint@)
            &&& event.collection_mint_account == a.collection_mint
            &&& derived_at(spec_token_mint_seeds(a.collection_mint, event.current_nft_count), program_id@, a.token_mint@)
            &&& derived_at(spec_associated_token_seeds(a.destination, a.token_mint, a.token_program), spec_associated_token_id(), a.destination_token_account@)
            &&& derived_at(spec_metadata_seeds(mp, a.token_mint), mp@, a.metadata_account@)
            &&& derived_at(spec_edition_seeds(mp, a.token_mint), mp@, a.edition_account@)
            &&& derived_at(spec_metadata_seeds(mp, a.collection_mint), mp@, a.collection_metadata_account@)
            &&& derived_at(spec_edition_seeds(mp, a.collection_mint), mp@, a.collection_master_edition@)
            &&& a.authority_is_signer
            &&& a.authority == config.authority
            &&& calls[0].program == a.token_program
            &&& calls[0].instruction == (CpiInstructionView::MintTo {
                mint: a.token_mint,
                to: a.destination_token_account,
                authority: a.collection_mint,
                amount: 1,
            })
            &&& calls[1].program == mp
            &&& calls[1].instruction == (CpiInstructionView::CreateMetadataAccountsV3 {
                metadata: a.metadata_account,
                mint: a.token_mint,
                mint_authority: a.collection_mint,
                payer: a.authority,
                update_authority: a.collection_mint,
                system_program: a.system_program,
                rent: a.rent,
                data: created_data(
                    numbered_name(name, event.current_nft_count as nat),
                    symbol,
                    uri,
                    a.collection_mint,
                    Some(Collection { key: a.collection_mint, verified: false }),
                ),
                is_mutable: true,
                update_authority_is_signer: false,
                collection_details: None,
            })
            &&& calls[2].program == mp
            &&& calls[2].instruction == (CpiInstructionView::CreateMasterEditionV3 {
                edition: a.edition_account,
                mint: a.token_mint,
                update_authority: a.collection_mint,
                mint_authority: a.collection_mint,
                payer: a.authority,
                metadata: a.metadata_account,
                token_program: a.token_program,
                system_program: a.system_program,
                rent: a.rent,
                max_supply: Some(0),
            })
            &&& calls[3].program == mp
            &&& calls[3].instruction == (CpiInstructionView::SetAndVerifySizedCollectionItem {
                metadata: a.metadata_account,
                collection_authority: a.collection_mint,
                payer: a.authority,
                update_authority: a.collection_mint,
                collection_mint: a.collection_mint,
                collection_metadata: a.collection_metadata_account,
                collection_master_edition: a.collection_master_edition,
                collection_authority_record: None,
            })
        }),
{
    let checks = accounts.checks(program_id, config, event, event_id);
    lemma_first_error_none_each(checks, 0);
    lemma_first_error_none_each(checks, 6);
    lemma_first_error_none_each(checks, 8);
    lemma_first_error_none_each(checks, 13);
    lemma_first_error_none_each(checks, 16);
    lemma_first_error_none_each(checks, 17);
    lemma_first_error_none_each(checks, 19);
    lemma_first_error_none_each(checks, 21);
    lemma_first_error_none_each(checks, 23);
    lemma_first_error_none_each(checks, 25);
}

/// A ticket sold to the signing buyer: the buyer pays the event's ticket
/// price to the event's creator; one token of the new ticket mint (the mint
/// derived from the event's collection and the ticket's number) goes into
/// the buyer's associated token account for that mint; the ticket's
/// metadata and master edition are those derived from the ticket mint and
/// are paid by the buyer; the ticket joins the event's own collection; and
/// every call after the payment is signed by the event's collection mint
/// with the seeds of its address.
#[verifier::rlimit(50)]
pub proof fn lemma_buy_token_calls(
    program_id: Pubkey,
    accounts: BuyToken,
    config: Config,
    event: EventView,
    event_id: u64,
    name: Seq<u8>,
    symbol: Seq<u8>,
    uri: Seq<u8>,
)
    requires
        first_error(accounts.checks(program_id, config, event, event_id)) is None,
    ensures
        ({
            let a = accounts;
            let mp = a.token_metadata_program;
            let calls = spec_buy_token_calls(a, a.spec_bumps(program_id, event, event_id), event, event_id, name, symbol, uri);
            &&& calls.len() == 5
            &&& forall|i: int| 1 <= i < 5 ==> signs_as_collection(#[trigger] calls[i].signer_seeds, event_id, a.collection_mint, program_id)
            &&& calls[0].signer_seeds == Seq::<Seq<u8>>::empty()
            &&& derived_at(spec_collection_mint_seeds(event_id), program_id@, a.collection_mint@)
            &&& event.collection_mint_account == a.collection_mint
            &&& derived_at(spec_token_mint_seeds(a.collection_mint, event.current_nft_count), program_id@, a.token_mint@)
            &&& derived_at(spec_associated_token_seeds(a.buyer, a.token_mint, a.token_program), spec_associated_token_id(), a.buyer_token_account@)
            &&& derived_at(spec_metadata_seeds(mp, a.token_mint), mp@, a.metadata_account@)
            &&& derived_at(spec_edition_seeds(mp, a.token_mint), mp@, a.edition_account@)
            &&& derived_at(spec_metadata_seeds(mp, a.collection_mint), mp@, a.collection_metadata_account@)
            &&& derived_at(spec_edition_seeds(mp, a.collection_mint), mp@, a.collection_master_edition@)
            &&& a.buyer_is_signer
            &&& calls[0].program == a.system_program
            &&& calls[0].instruction == (CpiInstructionView::Transfer {
                from: a.buyer,
                to: event.creator,
                lamports: event.ticket_price,
            })
            &&& calls[1].program == a.token_program
            &&& calls[1].instruction == (CpiInstructionView::MintTo {
                mint: a.token_mint,
                to: a.buyer_token_account,
                authority: a.collection_mint,
                amount: 1,
            })
            &&& calls[2].program == mp
            &&& calls[2].instruction == (CpiInstructionView::CreateMetadataAccountsV3 {
                metadata: a.metadata_account,
                mint: a.token_mint,
                mint_authority: a.collection_mint,
                payer: a.buyer,
                update_authority: a.collection_mint,
                system_program: a.system_program,
                rent: a.rent,
                data: created_data(name, symbol, uri, a.collection_mint, Some(Collection { key: a.collection_mint, verified: false })),
                is_mutable: true,
                update_authority_is_signer: false,
                collection_details: None,
            })
            &&& calls[3].program == mp
            &&& calls[3].instruction == (CpiInstructionView::CreateMasterEditionV3 {
                edition: a.edition_account,
                mint: a.token_mint,
                update_authority: a.collection_mint,
                mint_authority: a.collection_mint,
                payer: a.buyer,
                metadata: a.metadata_account,
                token_program: a.token_program,
                system_program: a.system_program,
                rent: a.rent,
                max_supply: Some(0),
            })
            &&& calls[4].program == mp
            &&& calls[4].instruction == (CpiInstructionView::SetAndVerifySizedCollectionItem {
                metadata: a.metadata_account,
                collection_authority: a.collection_mint,
                payer: a.buyer,
                update_authority: a.collection_mint,
                collection_mint: a.collection_mint,
                collection_metadata: a.collection_metadata_account,
                collection_master_edition: a.collection_master_edition,
                collection_authority_record: None,
            })
        }),
{
    let checks = accounts.checks(program_id, config, event, event_id);
    lemma_first_error_none_each(checks, 0);
    lemma_first_error_none_each(checks, 6);
    lemma_first_error_none_each(checks, 8);
    lemma_first_error_none_each(checks, 14);
    lemma_first_error_none_each(checks, 16);
    lemma_first_error_none_each(checks, 17);
    lemma_first_error_none_each(checks, 19);
    lemma_first_error_none_each(checks, 21);
    lemma_first_error_none_each(checks, 23);
    lemma_first_error_none_each(checks, 25);
}

/// An event created by the signing creator: the collection's one token goes
/// into the collection token account derived from the event's number; the
/// collection's metadata (a sized collection, not mutable) and master
/// edition are those derived from the collection mint and are paid by the
/// signing creator; the collection mint then signs the metadata as its
/// creator; and every call is signed by the collection mint with the seeds
/// of its address, derived from the event's number.
#[verifier::rlimit(50)]
pub proof fn lemma_initialize_event_calls(
    program_id: Pubkey,
    accounts: InitializeEvent,
    config: Config,
    name: Seq<u8>,
    symbol: Seq<u8>,
    uri: Seq<u8>,
)
    requires
        first_error(accounts.checks(program_id, config)) is None,
    ensures
        ({
            let a = accounts;
            let n = config.event_count;
            let mp = a.token_metadata_program;
            let calls = spec_initialize_event_calls(a, a.spec_bumps(program_id, config), n, name, symbol, uri);
            &&& calls.len() == 4
            &&& forall|i: int| 0 <= i < 4 ==> signs_as_collection(#[trigger] calls[i].signer_seeds, n, a.collection_mint, program_id)
            &&& derived_at(spec_event_seeds(n), program_id@, a.event@)
            &&& derived_at(spec_collection_mint_seeds(n), program_id@, a.collection_mint@)
            &&& derived_at(spec_collection_token_account_seeds(n), program_id@, a.collection_token_account@)
            &&& derived_at(spec_metadata_seeds(mp, a.collection_mint), mp@, a.metadata_account@)
            &&& derived_at(spec_edition_seeds(mp, a.collection_mint), mp@, a.edition_account@)
            &&& a.creator_is_signer
            &&& calls[0].program == a.token_program
            &&& calls[0].instruction == (CpiInstructionView::MintTo {
                mint: a.collection_mint,
                to: a.collection_token_account,
                authority: a.collection_mint,
                amount: 1,
            })
            &&& calls[1].program == mp
            &&& calls[1].instruction == (CpiInstructionView::CreateMetadataAccountsV3 {
                metadata: a.metadata_account,
                mint: a.collection_mint,
                mint_authority: a.collection_mint,
                payer: a.creator,
                update_authority: a.collection_mint,
                system_program: a.system_program,
                rent: a.rent,
                data: created_data(name, symbol, uri, a.collection_mint, None),
                is_mutable: false,
                update_authority_is_signer: false,
                collection_details: Some(CollectionDetails::V1 { size: 0 }),
            })
            &&& calls[2].program == mp
            &&& calls[2].instruction == (CpiInstructionView::CreateMasterEditionV3 {
                edition: a.edition_account,
                mint: a.collection_mint,
                update_authority: a.collection_mint,
                mint_authority: a.collection_mint,
                payer: a.creator,
                metadata: a.metadata_account,
                token_program: a.token_program,
                system_program: a.system_program,
                rent: a.rent,
                max_supply: Some(0),
            })
            &&& calls[3].program == mp
            &&& calls[3].instruction == (CpiInstructionView::SignMetadata {
                creator: a.collection_mint,
                metadata: a.metadata_account,
            })
        }),
{
    let checks = accounts.checks(program_id, config);
    lemma_first_error_none_each(checks, 0);
    lemma_first_error_none_each(checks, 5);
    lemma_first_error_none_each(checks, 7);
    lemma_first_error_none_each(checks, 9);
    lemma_first_error_none_each(checks, 14);
    lemma_first_error_none_each(checks, 16);
}

/// A tier added by the event's signing creator: it belongs to the event,
/// is numbered after the tiers the event had, nothing of it is minted yet,
/// it carries the price, supply and texts given, and its stored bump is the
/// one that the address search found for the tier's own address, derived
/// from the event and the tier's number.
pub proof fn lemma_new_digital_access(
    program_id: Pubkey,
    accounts: AddDigitalAccess,
    event: EventView,
    event_id: u64,
    price: u64,
    max_supply: u64,
    name: Seq<u8>,
    symbol: Seq<u8>,
    description: Seq<u8>,
    uri: Seq<u8>,
)
    requires
        first_error(accounts.checks(program_id, event, event_id)) is None,
    ensures
        ({
            let a = accounts;
            let access = spec_new_digital_access(
                a,
                a.spec_bumps(program_id, event),
                event,
                price,
                max_supply,
                name,
                symbol,
                description,
                uri,
            );
            &&& found_address(spec_digital_access_seeds(a.event, access.id), program_id@) == Some(
                (a.digital_access@, access.bump),
            )
            &&& access.event == a.event
            &&& access.id == event.current_digital_access_count
            &&& access.price == price
            &&& access.max_supply == max_supply
            &&& access.current_minted == 0
            &&& access.name == name
            &&& access.symbol == symbol
            &&& access.description == description
            &&& access.uri == uri
            &&& a.creator_is_signer
            &&& event.creator == a.creator
        }),
{
    let checks = accounts.checks(program_id, event, event_id);
    lemma_first_error_none_each(checks, 0);
    lemma_first_error_none_each(checks, 2);
    lemma_first_error_none_each(checks, 7);
}

/// The event recorded by the signing creator: it is theirs, its collection
/// is the collection mint derived from the event's number, it is dated
/// `now`, nothing is minted or added yet, its price is zero, it carries the
/// name and description given, and its stored bump is the one that the
/// address search found for the event's own address.
pub proof fn lemma_new_event(
    program_id: Pubkey,
    accounts: InitializeEvent,
    config: Config,
    now: i64,
    name: Seq<u8>,
    description: Seq<u8>,
)
    requires
        first_error(accounts.checks(program_id, config)) is None,
    ensures
        ({
            let n = config.event_count;
            let event = spec_new_event(accounts, accounts.spec_bumps(program_id, config), now, name, description);
            &&& event.creator == accounts.creator
            &&& accounts.creator_is_signer
            &&& event.collection_mint_account == accounts.collection_mint
            &&& derived_at(spec_collection_mint_seeds(n), program_id@, event.collection_mint_account@)
            &&& found_address(spec_event_seeds(n), program_id@) == Some((accounts.event@, event.bump))
            &&& event.date == now
            &&& event.current_nft_count == 0
            &&& event.current_digital_access_count == 0
            &&& event.ticket_price == 0
            &&& event.name == name
            &&& event.description == description
        }),
{
    let checks = accounts.checks(program_id, config);
    lemma_first_error_none_each(checks, 0);
    lemma_first_error_none_each(checks, 5);
    lemma_first_error_none_each(checks, 7);
}

/// The second program's event records its creator, the collection mint
/// handed in, the date `now`, and the name and description given.
pub proof fn lemma_contracts_new_event(accounts: InitializeEvent, now: i64, name: Seq<u8>, description: Seq<u8>)
    ensures
        ({
            let event = contracts_new_event(accounts, now, name, description);
            &&& event.creator == accounts.creator
            &&& event.collection_mint_account == accounts.collection_mint
            &&& event.date == now
            &&& event.name == name
            &&& event.description == description
        }),
{
}

/// The configuration set up by the signing authority: it is theirs, no
/// event exists yet, the treasury is the account derived from `"treasury"`,
/// and both stored bumps are the ones that the address search found for the
/// configuration's and the treasury's own addresses.
pub proof fn lemma_new_config(program_id: Pubkey, accounts: InitializeConfig)
    requires
        first_error(accounts.checks(program_id)) is None,
    ensures
        ({
            let config = spec_initialize_config(accounts, accounts.spec_bumps(program_id));
            &&& config.authority == accounts.authority
            &&& accounts.authority_is_signer
            &&& config.event_count == 0
            &&& config.treasury == accounts.treasury
            &&& found_address(spec_treasury_seeds(), program_id@) == Some((accounts.treasury@, config.treasury_bump))
            &&& found_address(spec_config_seeds(), program_id@) == Some((accounts.config@, config.bump))
        }),
{
    let checks = accounts.checks(program_id);
    lemma_first_error_none_each(checks, 0);
    lemma_first_error_none_each(checks, 2);
    lemma_first_error_none_each(checks, 5);
}

/// The update of a ticket's metadata by the signing authority: it rewrites
/// the metadata account derived from the ticket mint of number `token_id`
/// in the event's collection, as the collection mint (its update
/// authority), keeping that authority; the data sent is the stored data
/// with the new URI and every other field as stored; the metadata stays
/// mutable and its primary-sale flag is left alone; and the call is signed
/// by the event's collection mint with the seeds of its address.
pub proof fn lemma_update_token_metadata_call(
    program_id: Pubkey,
    accounts: UpdateTokenMetadata,
    config: Config,
    event: EventView,
    metadata: DataV2View,
    event_id: u64,
    token_id: u64,
    uri: Seq<u8>,
)
    requires
        first_error(accounts.checks(program_id, config, event, event_id, token_id)) is None,
    ensures
        ({
            let a = accounts;
            let mp = a.token_metadata_program;
            let call = spec_update_token_metadata_call(
                a,
                a.spec_bumps(program_id, event_id, token_id),
                metadata,
                event_id,
                uri,
            );
            &&& a.authority_is_signer
            &&& a.authority == config.authority
            &&& event.collection_mint_account == a.collection_mint
            &&& derived_at(spec_collection_mint_seeds(event_id), program_id@, a.collection_mint@)
            &&& derived_at(spec_token_mint_seeds(a.collection_mint, token_id), program_id@, a.token_mint@)
            &&& derived_at(spec_metadata_seeds(mp, a.token_mint), mp@, a.metadata_account@)
            &&& signs_as_collection(call.signer_seeds, event_id, a.collection_mint, program_id)
            &&& call.program == mp
            &&& call.instruction == (CpiInstructionView::UpdateMetadataAccountsV2 {
                metadata: a.metadata_account,
                update_authority: a.collection_mint,
                new_update_authority: None,
                data: Some(
                    DataV2View {
                        name: metadata.name,
                        symbol: metadata.symbol,
                        uri,
                        seller_fee_basis_points: metadata.seller_fee_basis_points,
                        creators: metadata.creators,
                        collection: metadata.collection,
                        uses: metadata.uses,
                    },
                ),
                primary_sale_happened: None,
                is_mutable: Some(true),
            })
        }),
{
    let checks = accounts.checks(program_id, config, event, event_id, token_id);
    lemma_first_error_none_each(checks, 0);
    lemma_first_error_none_each(checks, 4);
    lemma_first_error_none_each(checks, 6);
    lemma_first_error_none_each(checks, 7);
    lemma_first_error_none_each(checks, 9);
    lemma_first_error_none_each(checks, 11);
}

} // verus!
