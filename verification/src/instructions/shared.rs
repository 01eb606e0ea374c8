//! The calls into the token and metadata programs that several instructions share.
use vstd::prelude::*;

use crate::cpi::{
    Collection, CollectionDetails, CpiInstruction, CpiInstructionView, Creator, DataV2, DataV2View,
    Invocation, InvocationView,
};
use crate::keys::Pubkey;
use crate::seeds::copy_seed_list;

verus! {

pub open spec fn spec_mint_to(
    token_program: Pubkey,
    mint: Pubkey,
    to: Pubkey,
    authority: Pubkey,
    signer_seeds: Seq<Seq<u8>>,
) -> InvocationView {
    InvocationView {
        program: token_program,
        instruction: CpiInstructionView::MintTo { mint, to, authority, amount: 1 },
        signer_seeds,
    }
}

/// Mints one token of `mint` into the token account `to`, `authority`
/// signing with `signer_seeds`.
pub fn mint_to(
    token_program: &Pubkey,
    mint: &Pubkey,
    to: &Pubkey,
    authority: &Pubkey,
    signer_seeds: &Vec<Vec<u8>>,
) -> (res: Invocation)
    ensures
        res@ == spec_mint_to(*token_program, *mint, *to, *authority, signer_seeds.deep_view()),
{
    Invocation {
        program: *token_program,
        instruction: CpiInstruction::MintTo { mint: *mint, to: *to, authority: *authority, amount: 1 },
        signer_seeds: copy_seed_list(signer_seeds),
    }
}

pub open spec fn spec_create_metadata_accounts(
    metadata_program: Pubkey,
    metadata_account: Pubkey,
    mint: Pubkey,
    authority: Pubkey,
    payer: Pubkey,
    system_program: Pubkey,
    rent: Pubkey,
    signer_seeds: Seq<Seq<u8>>,
    name: Seq<u8>,
    symbol: Seq<u8>,
    uri: Seq<u8>,
    seller_fee_basis_points: u16,
    collection: Option<Collection>,
    is_mutable: bool,
    collection_details: Option<CollectionDetails>,
) -> InvocationView {
    InvocationView {
        program: metadata_program,
        instruction: CpiInstructionView::CreateMetadataAccountsV3 {
            metadata: metadata_account,
            mint,
            mint_authority: authority,
            payer,
            update_authority: authority,
            system_program,
            rent,
            data: DataV2View {
                name,
                symbol,
                uri,
                seller_fee_basis_points,
                creators: Some(seq![Creator { address: authority, verified: true, share: 100 }]),
                collection,
                uses: None,
            },
            is_mutable,
            update_authority_is_signer: false,
            collection_details,
        },
        signer_seeds,
    }
}

/// Creates the metadata of `mint`: `authority` is its mint and update
/// authority and its one creator, verified, with the whole share.
pub fn create_metadata_accounts(
    metadata_program: &Pubkey,
    metadata_account: &Pubkey,
    mint: &Pubkey,
    authority: &Pubkey,
    payer: &Pubkey,
    system_program: &Pubkey,
    rent: &Pubkey,
    signer_seeds: &Vec<Vec<u8>>,
    name: Vec<u8>,
    symbol: Vec<u8>,
    uri: Vec<u8>,
    seller_fee_basis_points: u16,
    collection: Option<Collection>,
    is_mutable: bool,
    collection_details: Option<CollectionDetails>,
) -> (res: Invocation)
    ensures
        res@ == spec_create_metadata_accounts(
            *metadata_program,
            *metadata_account,
            *mint,
            *authority,
            *payer,
            *system_program,
            *rent,
            signer_seeds.deep_view(),
            name@,
            symbol@,
            uri@,
            seller_fee_basis_points,
            collection,
            is_mutable,
            collection_details,
        ),
{
    let creators: Vec<Creator> = vec![Creator { address: *authority, verified: true, share: 100 }];
    assert(creators@ =~= seq![Creator { address: *authority, verified: true, share: 100 }]);
    Invocation {
        program: *metadata_program,
        instruction: CpiInstruction::CreateMetadataAccountsV3 {
            metadata: *metadata_account,
            mint: *mint,
            mint_authority: *authority,
            payer: *payer,
            update_authority: *authority,
            system_program: *system_program,
            rent: *rent,
            data: DataV2 {
                name,
                symbol,
                uri,
                seller_fee_basis_points,
                creators: Some(creators),
                collection,
                uses: None,
            },
            is_mutable,
            update_authority_is_signer: false,
            collection_details,
        },
        signer_seeds: copy_seed_list(signer_seeds),
    }
}

pub open spec fn spec_create_master_edition(
    metadata_program: Pubkey,
    edition_account: Pubkey,
    mint: Pubkey,
    authority: Pubkey,
    payer: Pubkey,
    metadata_account: Pubkey,
    token_program: Pubkey,
    system_program: Pubkey,
    rent: Pubkey,
    signer_seeds: Seq<Seq<u8>>,
) -> InvocationView {
    InvocationView {
        program: metadata_program,
        instruction: CpiInstructionView::CreateMasterEditionV3 {
            edition: edition_account,
            mint,
            update_authority: authority,
            mint_authority: authority,
            payer,
            metadata: metadata_account,
            token_program,
            system_program,
            rent,
            max_supply: Some(0),
        },
        signer_seeds,
    }
}

/// Creates the master edition of `mint` with a maximum supply of zero
/// prints: the token stays one of a kind.
pub fn create_master_edition(
    metadata_program: &Pubkey,
    edition_account: &Pubkey,
    mint: &Pubkey,
    authority: &Pubkey,
    payer: &Pubkey,
    metadata_account: &Pubkey,
    token_program: &Pubkey,
    system_program: &Pubkey,
    rent: &Pubkey,
    signer_seeds: &Vec<Vec<u8>>,
) -> (res: Invocation)
    ensures
        res@ == spec_create_master_edition(
            *metadata_program,
            *edition_account,
            *mint,
            *authority,
            *payer,
            *metadata_account,
            *token_program,
            *system_program,
            *rent,
            signer_seeds.deep_view(),
        ),
{
    Invocation {
        program: *metadata_program,
        instruction: CpiInstruction::CreateMasterEditionV3 {
            edition: *edition_account,
            mint: *mint,
            update_authority: *authority,
            mint_authority: *authority,
            payer: *payer,
            metadata: *metadata_account,
            token_program: *token_program,
            system_program: *system_program,
            rent: *rent,
            max_supply: Some(0),
        },
        signer_seeds: copy_seed_list(signer_seeds),
    }
}

pub open spec fn spec_set_and_verify_sized_collection_item(
    metadata_program: Pubkey,
    metadata_account: Pubkey,
    payer: Pubkey,
    collection_mint: Pubkey,
    collection_metadata: Pubkey,
    collection_master_edition: Pubkey,
    signer_seeds: Seq<Seq<u8>>,
) -> InvocationView {
    InvocationView {
        program: metadata_program,
        instruction: CpiInstructionView::SetAndVerifySizedCollectionItem {
            metadata: metadata_account,
            collection_authority: collection_mint,
            payer,
            update_authority: collection_mint,
            collection_mint,
            collection_metadata,
            collection_master_edition,
            collection_authority_record: None,
        },
        signer_seeds,
    }
}

/// Adds the token of `metadata_account` to the collection of
/// `collection_mint` and verifies it, the collection mint signing.
pub fn set_and_verify_sized_collection_item(
    metadata_program: &Pubkey,
    metadata_account: &Pubkey,
    payer: &Pubkey,
    collection_mint: &Pubkey,
    collection_metadata: &Pubkey,
    collection_master_edition: &Pubkey,
    signer_seeds: &Vec<Vec<u8>>,
) -> (res: Invocation)
    ensures
        res@ == spec_set_and_verify_sized_collection_item(
            *metadata_program,
            *metadata_account,
            *payer,
            *collection_mint,
            *collection_metadata,
            *collection_master_edition,
            signer_seeds.deep_view(),
        ),
{
    Invocation {
        program: *metadata_program,
        instruction: CpiInstruction::SetAndVerifySizedCollectionItem {
            metadata: *metadata_account,
            collection_authority: *collection_mint,
            payer: *payer,
            update_authority: *collection_mint,
            collection_mint: *collection_mint,
            collection_metadata: *collection_metadata,
            collection_master_edition: *collection_master_edition,
            collection_authority_record: None,
        },
        signer_seeds: copy_seed_list(signer_seeds),
    }
}

} // verus!
