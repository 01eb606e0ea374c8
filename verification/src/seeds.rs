//! The seed lists from which each account of the program is derived.
use vstd::prelude::*;
use vstd::bytes::{spec_u64_to_le_bytes, u64_to_le_bytes};

use crate::constants::{
    seed_collection_mint, seed_collection_token_account, seed_config, seed_digital_access, seed_edition,
    seed_event, seed_metadata, seed_token_mint, seed_treasury, spec_seed_collection_mint,
    spec_seed_collection_token_account, spec_seed_config, spec_seed_digital_access, spec_seed_edition,
    spec_seed_event, spec_seed_metadata, spec_seed_token_mint, spec_seed_treasury,
};
use crate::keys::Pubkey;

verus! {

/// Seeds of the configuration account.
pub open spec fn spec_config_seeds() -> Seq<Seq<u8>> {
    seq![spec_seed_config()]
}

/// Seeds of the treasury account.
pub open spec fn spec_treasury_seeds() -> Seq<Seq<u8>> {
    seq![spec_seed_treasury()]
}

/// Seeds of event number `n`.
pub open spec fn spec_event_seeds(n: u64) -> Seq<Seq<u8>> {
    seq![spec_seed_event(), spec_u64_to_le_bytes(n)]
}

/// Seeds of the collection mint of event number `n`.
pub open spec fn spec_collection_mint_seeds(n: u64) -> Seq<Seq<u8>> {
    seq![spec_seed_collection_mint(), spec_u64_to_le_bytes(n)]
}

/// Seeds of the account that holds the collection token of event number `n`.
pub open spec fn spec_collection_token_account_seeds(n: u64) -> Seq<Seq<u8>> {
    seq![spec_seed_collection_token_account(), spec_u64_to_le_bytes(n)]
}

/// Seeds of ticket mint number `n` of the collection `collection_mint`.
pub open spec fn spec_token_mint_seeds(collection_mint: Pubkey, n: u64) -> Seq<Seq<u8>> {
    seq![spec_seed_token_mint(), collection_mint@, spec_u64_to_le_bytes(n)]
}

/// Seeds of digital access tier number `n` of the event at `event`.
pub open spec fn spec_digital_access_seeds(event: Pubkey, n: u8) -> Seq<Seq<u8>> {
    seq![spec_seed_digital_access(), event@, seq![n]]
}

/// Seeds of the metadata account of `mint`, derived under the metadata program.
pub open spec fn spec_metadata_seeds(metadata_program: Pubkey, mint: Pubkey) -> Seq<Seq<u8>> {
    seq![spec_seed_metadata(), metadata_program@, mint@]
}

/// Seeds of the master edition account of `mint`, derived under the metadata program.
pub open spec fn spec_edition_seeds(metadata_program: Pubkey, mint: Pubkey) -> Seq<Seq<u8>> {
    seq![spec_seed_metadata(), metadata_program@, mint@, spec_seed_edition()]
}

/// Seeds of the associated token account of `wallet` for `mint`, derived
/// under the associated token program.
pub open spec fn spec_associated_token_seeds(wallet: Pubkey, mint: Pubkey, token_program: Pubkey) -> Seq<Seq<u8>> {
    seq![wallet@, token_program@, mint@]
}

/// The seeds with which the collection mint of event `n` signs: its own
/// seeds followed by its bump.
pub open spec fn spec_collection_signer_seeds(n: u64, bump: u8) -> Seq<Seq<u8>> {
    spec_collection_mint_seeds(n).push(seq![bump])
}

/// Little-endian bytes of distinct numbers differ.
pub proof fn lemma_le_bytes_injective(a: u64, b: u64)
    requires
        a != b,
    ensures
        spec_u64_to_le_bytes(a) != spec_u64_to_le_bytes(b),
{
    vstd::bytes::lemma_auto_spec_u64_to_from_le_bytes();
}

/// Different event numbers give different seeds for the event, for its
/// collection mint and for its collection token account: no two events
/// share an account.
pub proof fn lemma_event_seeds_distinct(a: u64, b: u64)
    requires
        a != b,
    ensures
        spec_event_seeds(a) != spec_event_seeds(b),
        spec_collection_mint_seeds(a) != spec_collection_mint_seeds(b),
        spec_collection_token_account_seeds(a) != spec_collection_token_account_seeds(b),
{
    lemma_le_bytes_injective(a, b);
    assert(spec_event_seeds(a)[1] != spec_event_seeds(b)[1]);
    assert(spec_collection_mint_seeds(a)[1] != spec_collection_mint_seeds(b)[1]);
    assert(spec_collection_token_account_seeds(a)[1] != spec_collection_token_account_seeds(b)[1]);
}

/// Different ticket numbers give different seeds for the ticket mint, under
/// any one collection: no two tickets share a mint.
pub proof fn lemma_token_mint_seeds_distinct(collection_mint: Pubkey, a: u64, b: u64)
    requires
        a != b,
    ensures
        spec_token_mint_seeds(collection_mint, a) != spec_token_mint_seeds(collection_mint, b),
{
    lemma_le_bytes_injective(a, b);
    assert(spec_token_mint_seeds(collection_mint, a)[2] != spec_token_mint_seeds(collection_mint, b)[2]);
}

/// Different tier numbers give different seeds for the tier, under any one
/// event: no two tiers share an account.
pub proof fn lemma_digital_access_seeds_distinct(event: Pubkey, a: u8, b: u8)
    requires
        a != b,
    ensures
        spec_digital_access_seeds(event, a) != spec_digital_access_seeds(event, b),
{
    assert(spec_digital_access_seeds(event, a)[2][0] != spec_digital_access_seeds(event, b)[2][0]);
}

pub fn config_seeds() -> (res: Vec<Vec<u8>>)
    ensures
        res.deep_view() == spec_config_seeds(),
{
    let res: Vec<Vec<u8>> = vec![seed_config()];
    proof {
        crate::text::lemma_byte_lists_deep_view(res);
    }
    assert(res.deep_view() =~= spec_config_seeds());
    res
}

pub fn treasury_seeds() -> (res: Vec<Vec<u8>>)
    ensures
        res.deep_view() == spec_treasury_seeds(),
{
    let res: Vec<Vec<u8>> = vec![seed_treasury()];
    proof {
        crate::text::lemma_byte_lists_deep_view(res);
    }
    assert(res.deep_view() =~= spec_treasury_seeds());
    res
}

pub fn event_seeds(n: u64) -> (res: Vec<Vec<u8>>)
    ensures
        res.deep_view() == spec_event_seeds(n),
{
    let res: Vec<Vec<u8>> = vec![seed_event(), u64_to_le_bytes(n)];
    proof {
        crate::text::lemma_byte_lists_deep_view(res);
    }
    assert(res.deep_view() =~= spec_event_seeds(n));
    res
}

pub fn collection_mint_seeds(n: u64) -> (res: Vec<Vec<u8>>)
    ensures
        res.deep_view() == spec_collection_mint_seeds(n),
{
    let res: Vec<Vec<u8>> = vec![seed_collection_mint(), u64_to_le_bytes(n)];
    proof {
        crate::text::lemma_byte_lists_deep_view(res);
    }
    assert(res.deep_view() =~= spec_collection_mint_seeds(n));
    res
}

pub fn collection_token_account_seeds(n: u64) -> (res: Vec<Vec<u8>>)
    ensures
        res.deep_view() == spec_collection_token_account_seeds(n),
{
    let res: Vec<Vec<u8>> = vec![seed_collection_token_account(), u64_to_le_bytes(n)];
    proof {
        crate::text::lemma_byte_lists_deep_view(res);
    }
    assert(res.deep_view() =~= spec_collection_token_account_seeds(n));
    res
}

pub fn token_mint_seeds(collection_mint: &Pubkey, n: u64) -> (res: Vec<Vec<u8>>)
    ensures
        res.deep_view() == spec_token_mint_seeds(*collection_mint, n),
{
    let res: Vec<Vec<u8>> = vec![seed_token_mint(), collection_mint.to_seed(), u64_to_le_bytes(n)];
    proof {
        crate::text::lemma_byte_lists_deep_view(res);
    }
    assert(res.deep_view() =~= spec_token_mint_seeds(*collection_mint, n));
    res
}

pub fn digital_access_seeds(event: &Pubkey, n: u8) -> (res: Vec<Vec<u8>>)
    ensures
        res.deep_view() == spec_digital_access_seeds(*event, n),
{
    let count: Vec<u8> = vec![n];
    assert(count@ =~= seq![n]);
    let res: Vec<Vec<u8>> = vec![seed_digital_access(), event.to_seed(), count];
    proof {
        crate::text::lemma_byte_lists_deep_view(res);
    }
    assert(res.deep_view() =~= spec_digital_access_seeds(*event, n));
    res
}

pub fn metadata_seeds(metadata_program: &Pubkey, mint: &Pubkey) -> (res: Vec<Vec<u8>>)
    ensures
        res.deep_view() == spec_metadata_seeds(*metadata_program, *mint),
{
    let res: Vec<Vec<u8>> = vec![seed_metadata(), metadata_program.to_seed(), mint.to_seed()];
    proof {
        crate::text::lemma_byte_lists_deep_view(res);
    }
    assert(res.deep_view() =~= spec_metadata_seeds(*metadata_program, *mint));
    res
}

pub fn edition_seeds(metadata_program: &Pubkey, mint: &Pubkey) -> (res: Vec<Vec<u8>>)
    ensures
        res.deep_view() == spec_edition_seeds(*metadata_program, *mint),
{
    let res: Vec<Vec<u8>> = vec![seed_metadata(), metadata_program.to_seed(), mint.to_seed(), seed_edition()];
    proof {
        crate::text::lemma_byte_lists_deep_view(res);
    }
    assert(res.deep_view() =~= spec_edition_seeds(*metadata_program, *mint));
    res
}

pub fn associated_token_seeds(wallet: &Pubkey, mint: &Pubkey, token_program: &Pubkey) -> (res: Vec<Vec<u8>>)
    ensures
        res.deep_view() == spec_associated_token_seeds(*wallet, *mint, *token_program),
{
    let res: Vec<Vec<u8>> = vec![wallet.to_seed(), token_program.to_seed(), mint.to_seed()];
    proof {
        crate::text::lemma_byte_lists_deep_view(res);
    }
    assert(res.deep_view() =~= spec_associated_token_seeds(*wallet, *mint, *token_program));
    res
}

pub fn collection_signer_seeds(n: u64, bump: u8) -> (res: Vec<Vec<u8>>)
    ensures
        res.deep_view() == spec_collection_signer_seeds(n, bump),
{
    let b: Vec<u8> = vec![bump];
    assert(b@ =~= seq![bump]);
    let res: Vec<Vec<u8>> = vec![seed_collection_mint(), u64_to_le_bytes(n), b];
    proof {
        crate::text::lemma_byte_lists_deep_view(res);
    }
    assert(res.deep_view() =~= spec_collection_signer_seeds(n, bump));
    res
}

/// A copy of a list of seeds.
pub fn copy_seed_list(seeds: &Vec<Vec<u8>>) -> (res: Vec<Vec<u8>>)
    ensures
        res.deep_view() == seeds.deep_view(),
{
    let mut out: Vec<Vec<u8>> = Vec::new();
    let mut i: usize = 0;
    while i < seeds.len()
        invariant
            i <= seeds.len(),
            out.deep_view() =~= seeds.deep_view().take(i as int),
        decreases seeds.len() - i,
    {
        let ghost before = out.deep_view();
        let part = crate::text::copy_bytes(&seeds[i]);
        proof {
            crate::text::lemma_bytes_deep_view(part);
            crate::text::lemma_bytes_deep_view(seeds[i as int]);
        }
        out.push(part);
        assert(out.deep_view() =~= before.push(seeds.deep_view()[i as int]));
        i = i + 1;
    }
    assert(out.deep_view() =~= seeds.deep_view());
    out
}

} // verus!
