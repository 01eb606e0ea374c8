//! The calls that the program makes into the token, metadata and system
//! programs, described as values: which program, which instruction with
//! which accounts and arguments, and the seeds with which the program signs.
use vstd::prelude::*;

use crate::keys::Pubkey;

verus! {

/// A creator listed in token metadata, with its share of royalties.
#[derive(Clone, Copy, Debug)]
pub struct Creator {
    pub address: Pubkey,
    pub verified: bool,
    pub share: u8,
}

/// The collection a token belongs to.
#[derive(Clone, Copy, Debug)]
pub struct Collection {
    pub verified: bool,
    pub key: Pubkey,
}

/// How a collection counts its members.
#[derive(Clone, Copy, Debug)]
pub enum CollectionDetails {
    V1 { size: u64 },
    V2 { padding: [u8; 8] },
}

/// How the uses of a token are spent.
#[derive(Clone, Copy, Debug)]
pub enum UseMethod {
    Burn,
    Multiple,
    Single,
}

/// The uses a token carries.
#[derive(Clone, Copy, Debug)]
pub struct Uses {
    pub use_method: UseMethod,
    pub remaining: u64,
    pub total: u64,
}

/// The data of a token's metadata: texts as UTF-8 bytes.
#[derive(Debug)]
pub struct DataV2 {
    pub name: Vec<u8>,
    pub symbol: Vec<u8>,
    pub uri: Vec<u8>,
    pub seller_fee_basis_points: u16,
    pub creators: Option<Vec<Creator>>,
    pub collection: Option<Collection>,
    pub uses: Option<Uses>,
}

pub struct DataV2View {
    pub name: Seq<u8>,
    pub symbol: Seq<u8>,
    pub uri: Seq<u8>,
    pub seller_fee_basis_points: u16,
    pub creators: Option<Seq<Creator>>,
    pub collection: Option<Collection>,
    pub uses: Option<Uses>,
}

pub open spec fn creators_view(c: Option<Vec<Creator>>) -> Option<Seq<Creator>> {
    match c {
        Some(v) => Some(v@),
        None => None,
    }
}

impl View for DataV2 {
    type V = DataV2View;

    open spec fn view(&self) -> DataV2View {
        DataV2View {
            name: self.name@,
            symbol: self.symbol@,
            uri: self.uri@,
            seller_fee_basis_points: self.seller_fee_basis_points,
            creators: creators_view(self.creators),
            collection: self.collection,
            uses: self.uses,
        }
    }
}

/// The metadata account of a token, as the metadata program stores it: the
/// fields that the program reads back.
#[derive(Debug)]
pub struct MetadataAccount {
    pub name: Vec<u8>,
    pub symbol: Vec<u8>,
    pub uri: Vec<u8>,
    pub seller_fee_basis_points: u16,
    pub creators: Option<Vec<Creator>>,
    pub collection: Option<Collection>,
    pub uses: Option<Uses>,
}

impl View for MetadataAccount {
    type V = DataV2View;

    open spec fn view(&self) -> DataV2View {
        DataV2View {
            name: self.name@,
            symbol: self.symbol@,
            uri: self.uri@,
            seller_fee_basis_points: self.seller_fee_basis_points,
            creators: creators_view(self.creators),
            collection: self.collection,
            uses: self.uses,
        }
    }
}

/// A copy of a list of creators.
pub fn copy_creators(c: &Option<Vec<Creator>>) -> (res: Option<Vec<Creator>>)
    ensures
        creators_view(res) == creators_view(*c),
{
    match c {
        None => None,
        Some(v) => {
            let mut out: Vec<Creator> = Vec::new();
            let mut i: usize = 0;
            while i < v.len()
                invariant
                    i <= v.len(),
                    out@ =~= v@.take(i as int),
                decreases v.len() - i,
            {
                out.push(v[i]);
                i = i + 1;
            }
            assert(out@ =~= v@);
            Some(out)
        },
    }
}

/// An instruction of another program, with its accounts and arguments.
#[derive(Debug)]
#[allow(inconsistent_fields)]
pub enum CpiInstruction {
    /// Token program: mint `amount` tokens of `mint` into `to`.
    MintTo { mint: Pubkey, to: Pubkey, authority: Pubkey, amount: u64 },
    /// Metadata program: create the metadata account of `mint`.
    CreateMetadataAccountsV3 {
        metadata: Pubkey,
        mint: Pubkey,
        mint_authority: Pubkey,
        payer: Pubkey,
        update_authority: Pubkey,
        system_program: Pubkey,
        rent: Pubkey,
        data: DataV2,
        is_mutable: bool,
        update_authority_is_signer: bool,
        collection_details: Option<CollectionDetails>,
    },
    /// Metadata program: create the master edition of `mint`.
    CreateMasterEditionV3 {
        edition: Pubkey,
        mint: Pubkey,
        update_authority: Pubkey,
        mint_authority: Pubkey,
        payer: Pubkey,
        metadata: Pubkey,
        token_program: Pubkey,
        system_program: Pubkey,
        rent: Pubkey,
        max_supply: Option<u64>,
    },
    /// Metadata program: `creator` signs the metadata as a creator.
    SignMetadata { creator: Pubkey, metadata: Pubkey },
    /// Metadata program: add a token to a sized collection and verify it.
    SetAndVerifySizedCollectionItem {
        metadata: Pubkey,
        collection_authority: Pubkey,
        payer: Pubkey,
        update_authority: Pubkey,
        collection_mint: Pubkey,
        collection_metadata: Pubkey,
        collection_master_edition: Pubkey,
        collection_authority_record: Option<Pubkey>,
    },
    /// Metadata program: replace the data of a metadata account.
    UpdateMetadataAccountsV2 {
        metadata: Pubkey,
        update_authority: Pubkey,
        new_update_authority: Option<Pubkey>,
        data: Option<DataV2>,
        primary_sale_happened: Option<bool>,
        is_mutable: Option<bool>,
    },
    /// System program: move `lamports` from `from` to `to`.
    Transfer { from: Pubkey, to: Pubkey, lamports: u64 },
}

#[allow(inconsistent_fields)]
pub enum CpiInstructionView {
    MintTo { mint: Pubkey, to: Pubkey, authority: Pubkey, amount: u64 },
    CreateMetadataAccountsV3 {
        metadata: Pubkey,
        mint: Pubkey,
        mint_authority: Pubkey,
        payer: Pubkey,
        update_authority: Pubkey,
        system_program: Pubkey,
        rent: Pubkey,
        data: DataV2View,
        is_mutable: bool,
        update_authority_is_signer: bool,
        collection_details: Option<CollectionDetails>,
    },
    CreateMasterEditionV3 {
        edition: Pubkey,
        mint: Pubkey,
        update_authority: Pubkey,
        mint_authority: Pubkey,
        payer: Pubkey,
        metadata: Pubkey,
        token_program: Pubkey,
        system_program: Pubkey,
        rent: Pubkey,
        max_supply: Option<u64>,
    },
    SignMetadata { creator: Pubkey, metadata: Pubkey },
    SetAndVerifySizedCollectionItem {
        metadata: Pubkey,
        collection_authority: Pubkey,
        payer: Pubkey,
        update_authority: Pubkey,
        collection_mint: Pubkey,
        collection_metadata: Pubkey,
        collection_master_edition: Pubkey,
        collection_authority_record: Option<Pubkey>,
    },
    UpdateMetadataAccountsV2 {
        metadata: Pubkey,
        update_authority: Pubkey,
        new_update_authority: Option<Pubkey>,
        data: Option<DataV2View>,
        primary_sale_happened: Option<bool>,
        is_mutable: Option<bool>,
    },
    Transfer { from: Pubkey, to: Pubkey, lamports: u64 },
}

impl View for CpiInstruction {
    type V = CpiInstructionView;

    open spec fn view(&self) -> CpiInstructionView {
        match *self {
            CpiInstruction::MintTo { mint, to, authority, amount } => CpiInstructionView::MintTo {
                mint,
                to,
                authority,
                amount,
            },
            CpiInstruction::CreateMetadataAccountsV3 {
                metadata,
                mint,
                mint_authority,
                payer,
                update_authority,
                system_program,
                rent,
                data,
                is_mutable,
                update_authority_is_signer,
                collection_details,
            } => CpiInstructionView::CreateMetadataAccountsV3 {
                metadata,
                mint,
                mint_authority,
                payer,
                update_authority,
                system_program,
                rent,
                data: data@,
                is_mutable,
                update_authority_is_signer,
                collection_details,
            },
            CpiInstruction::CreateMasterEditionV3 {
                edition,
                mint,
                update_authority,
                mint_authority,
                payer,
                metadata,
                token_program,
                system_program,
                rent,
                max_supply,
            } => CpiInstructionView::CreateMasterEditionV3 {
                edition,
                mint,
                update_authority,
                mint_authority,
                payer,
                metadata,
                token_program,
                system_program,
                rent,
                max_supply,
            },
            CpiInstruction::SignMetadata { creator, metadata } => CpiInstructionView::SignMetadata {
                creator,
                metadata,
            },
            CpiInstruction::SetAndVerifySizedCollectionItem {
                metadata,
                collection_authority,
                payer,
                update_authority,
                collection_mint,
                collection_metadata,
                collection_master_edition,
                collection_authority_record,
            } => CpiInstructionView::SetAndVerifySizedCollectionItem {
                metadata,
                collection_authority,
                payer,
                update_authority,
                collection_mint,
                collection_metadata,
                collection_master_edition,
                collection_authority_record,
            },
            CpiInstruction::UpdateMetadataAccountsV2 {
                metadata,
                update_authority,
                new_update_authority,
                data,
                primary_sale_happened,
                is_mutable,
            } => CpiInstructionView::UpdateMetadataAccountsV2 {
                metadata,
                update_authority,
                new_update_authority,
                data: match data {
                    Some(d) => Some(d@),
                    None => None,
                },
                primary_sale_happened,
                is_mutable,
            },
            CpiInstruction::Transfer { from, to, lamports } => CpiInstructionView::Transfer {
                from,
                to,
                lamports,
            },
        }
    }
}

/// A call into another program: the program, the instruction, and the
/// seeds of the account on whose behalf the program signs (empty when it
/// signs for none).
#[derive(Debug)]
pub struct Invocation {
    pub program: Pubkey,
    pub instruction: CpiInstruction,
    pub signer_seeds: Vec<Vec<u8>>,
}

pub struct InvocationView {
    pub program: Pubkey,
    pub instruction: CpiInstructionView,
    pub signer_seeds: Seq<Seq<u8>>,
}

impl View for Invocation {
    type V = InvocationView;

    open spec fn view(&self) -> InvocationView {
        InvocationView {
            program: self.program,
            instruction: self.instruction@,
            signer_seeds: self.signer_seeds.deep_view(),
        }
    }
}

/// The views of a list of calls, in order.
pub open spec fn invocations_view(calls: Seq<Invocation>) -> Seq<InvocationView> {
    calls.map_values(|c: Invocation| c@)
}

} // verus!
