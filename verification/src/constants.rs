//! The seeds from which the program derives its accounts' addresses.
use vstd::prelude::*;

verus! {

/// Bytes that precede the serialized fields of every account of the program.
pub const ANCHOR_DISCRIMINATOR: usize = 8;

/// The seed `"config"`: the program configuration account.
pub open spec fn spec_seed_config() -> Seq<u8> {
    seq![99, 111, 110, 102, 105, 103]
}

/// The bytes of the seed `"config"`.
pub fn seed_config() -> (res: Vec<u8>)
    ensures
        res@ == spec_seed_config(),
{
    let res: Vec<u8> = vec![99, 111, 110, 102, 105, 103];
    assert(res@ =~= spec_seed_config());
    res
}

/// The seed `"treasury"`: the treasury account.
pub open spec fn spec_seed_treasury() -> Seq<u8> {
    seq![116, 114, 101, 97, 115, 117, 114, 121]
}

/// The bytes of the seed `"treasury"`.
pub fn seed_treasury() -> (res: Vec<u8>)
    ensures
        res@ == spec_seed_treasury(),
{
    let res: Vec<u8> = vec![116, 114, 101, 97, 115, 117, 114, 121];
    assert(res@ =~= spec_seed_treasury());
    res
}

/// The seed `"event"`: an event account, followed by the event number.
pub open spec fn spec_seed_event() -> Seq<u8> {
    seq![101, 118, 101, 110, 116]
}

/// The bytes of the seed `"event"`.
pub fn seed_event() -> (res: Vec<u8>)
    ensures
        res@ == spec_seed_event(),
{
    let res: Vec<u8> = vec![101, 118, 101, 110, 116];
    assert(res@ =~= spec_seed_event());
    res
}

/// The seed `"collection_mint"`: an event's collection mint, followed by the event number.
pub open spec fn spec_seed_collection_mint() -> Seq<u8> {
    seq![99, 111, 108, 108, 101, 99, 116, 105, 111, 110, 95, 109, 105, 110, 116]
}

/// The bytes of the seed `"collection_mint"`.
pub fn seed_collection_mint() -> (res: Vec<u8>)
    ensures
        res@ == spec_seed_collection_mint(),
{
    let res: Vec<u8> = vec![99, 111, 108, 108, 101, 99, 116, 105, 111, 110, 95, 109, 105, 110, 116];
    assert(res@ =~= spec_seed_collection_mint());
    res
}

/// The seed `"collection_token_account"`: the token account that holds an event's collection token.
pub open spec fn spec_seed_collection_token_account() -> Seq<u8> {
    seq![99, 111, 108, 108, 101, 99, 116, 105, 111, 110, 95, 116, 111, 107, 101, 110, 95, 97, 99, 99, 111, 117, 110, 116]
}

/// The bytes of the seed `"collection_token_account"`.
pub fn seed_collection_token_account() -> (res: Vec<u8>)
    ensures
        res@ == spec_seed_collection_token_account(),
{
    let res: Vec<u8> = vec![99, 111, 108, 108, 101, 99, 116, 105, 111, 110, 95, 116, 111, 107, 101, 110, 95, 97, 99, 99, 111, 117, 110, 116];
    assert(res@ =~= spec_seed_collection_token_account());
    res
}

/// The seed `"token_mint"`: a ticket mint, followed by the collection mint and the ticket number.
pub open spec fn spec_seed_token_mint() -> Seq<u8> {
    seq![116, 111, 107, 101, 110, 95, 109, 105, 110, 116]
}

/// The bytes of the seed `"token_mint"`.
pub fn seed_token_mint() -> (res: Vec<u8>)
    ensures
        res@ == spec_seed_token_mint(),
{
    let res: Vec<u8> = vec![116, 111, 107, 101, 110, 95, 109, 105, 110, 116];
    assert(res@ =~= spec_seed_token_mint());
    res
}

/// The seed `"digital_access"`: a digital access tier, followed by the event account and the tier number.
pub open spec fn spec_seed_digital_access() -> Seq<u8> {
    seq![100, 105, 103, 105, 116, 97, 108, 95, 97, 99, 99, 101, 115, 115]
}

/// The bytes of the seed `"digital_access"`.
pub fn seed_digital_access() -> (res: Vec<u8>)
    ensures
        res@ == spec_seed_digital_access(),
{
    let res: Vec<u8> = vec![100, 105, 103, 105, 116, 97, 108, 95, 97, 99, 99, 101, 115, 115];
    assert(res@ =~= spec_seed_digital_access());
    res
}

/// The seed `"metadata"`: a Metaplex metadata account (derived under the metadata program).
pub open spec fn spec_seed_metadata() -> Seq<u8> {
    seq![109, 101, 116, 97, 100, 97, 116, 97]
}

/// The bytes of the seed `"metadata"`.
pub fn seed_metadata() -> (res: Vec<u8>)
    ensures
        res@ == spec_seed_metadata(),
{
    let res: Vec<u8> = vec![109, 101, 116, 97, 100, 97, 116, 97];
    assert(res@ =~= spec_seed_metadata());
    res
}

/// The seed `"edition"`: the suffix of a Metaplex master edition account.
pub open spec fn spec_seed_edition() -> Seq<u8> {
    seq![101, 100, 105, 116, 105, 111, 110]
}

/// The bytes of the seed `"edition"`.
pub fn seed_edition() -> (res: Vec<u8>)
    ensures
        res@ == spec_seed_edition(),
{
    let res: Vec<u8> = vec![101, 100, 105, 116, 105, 111, 110];
    assert(res@ =~= spec_seed_edition());
    res
}

} // verus!
