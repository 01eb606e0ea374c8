//! Program-derived addresses: the address that a program owns for a list of
//! seeds, as the Solana SDK derives it, and the seed checks built on it.
use vstd::prelude::*;

use crate::errors::ProgramError;
use crate::keys::Pubkey;
use crate::program_ids::{associated_token_id, spec_associated_token_id};
use crate::seeds::{associated_token_seeds, spec_associated_token_seeds};

verus! {

/// What `Pubkey::create_program_address` of the Solana SDK returns for the
/// seeds and the program id: the derived address, or nothing where it
/// refuses the seeds or the hash lies on the curve.
pub uninterp spec fn created_address(seeds: Seq<Seq<u8>>, program_id: Seq<u8>) -> Option<Seq<u8>>;

/// What `Pubkey::try_find_program_address` of the Solana SDK returns for the
/// seeds and the program id: the address and the bump seed found, or nothing.
pub uninterp spec fn found_address(seeds: Seq<Seq<u8>>, program_id: Seq<u8>) -> Option<(Seq<u8>, u8)>;

/// Calls `anchor_lang::prelude::Pubkey::create_program_address` (the SDK's
/// `Pubkey`).  Claimed: the result is the address named by `created_address`
/// for these seeds and this program, and there is one exactly when the SDK
/// returns `Ok`; which error the SDK gives is dropped.
#[verifier::external_body]
fn create_program_address(seeds: &Vec<Vec<u8>>, program_id: &Pubkey) -> (res: Option<Pubkey>)
    ensures
        res is Some <==> created_address(seeds.deep_view(), program_id@) is Some,
        res matches Some(k) ==> created_address(seeds.deep_view(), program_id@) == Some(k@),
{
    let parts: Vec<&[u8]> = seeds.iter().map(|s| s.as_slice()).collect();
    let id = anchor_lang::prelude::Pubkey::new_from_array(program_id.0);
    anchor_lang::prelude::Pubkey::create_program_address(&parts, &id).ok().map(|k| Pubkey(k.to_bytes()))
}

/// Calls `anchor_lang::prelude::Pubkey::try_find_program_address`.  Claimed:
/// the result is the one named by `found_address`, and, as the SDK's source
/// shows, a found address is what `create_program_address` gives for the
/// seeds followed by the one-byte bump seed.
#[verifier::external_body]
fn try_find_program_address(seeds: &Vec<Vec<u8>>, program_id: &Pubkey) -> (res: Option<(Pubkey, u8)>)
    ensures
        res is Some <==> found_address(seeds.deep_view(), program_id@) is Some,
        res matches Some((k, b)) ==> found_address(seeds.deep_view(), program_id@) == Some((k@, b)),
        res matches Some((k, b)) ==> created_address(seeds.deep_view().push(seq![b]), program_id@) == Some(k@),
{
    let parts: Vec<&[u8]> = seeds.iter().map(|s| s.as_slice()).collect();
    let id = anchor_lang::prelude::Pubkey::new_from_array(program_id.0);
    anchor_lang::prelude::Pubkey::try_find_program_address(&parts, &id).map(|(k, b)| (Pubkey(k.to_bytes()), b))
}

/// `key` is the address that the search finds for `seeds` under `program_id`.
pub open spec fn derived_at(seeds: Seq<Seq<u8>>, program_id: Seq<u8>, key: Seq<u8>) -> bool {
    found_address(seeds, program_id) matches Some(found) && found.0 == key
}

/// The check on an account whose bump seed is searched for: the search must
/// succeed and give the account's address.
pub open spec fn found_check(key: Seq<u8>, seeds: Seq<Seq<u8>>, program_id: Seq<u8>) -> Option<ProgramError> {
    match found_address(seeds, program_id) {
        None => Some(ProgramError::BumpNotFound),
        Some(found) => if found.0 == key {
            None
        } else {
            Some(ProgramError::ConstraintSeeds)
        },
    }
}

/// The bump seed that the search finds for the seeds.
pub open spec fn found_bump(seeds: Seq<Seq<u8>>, program_id: Seq<u8>) -> u8 {
    found_address(seeds, program_id).unwrap().1
}

/// The check on an account whose bump seed is stored: the seeds followed by
/// the bump must derive the account's address.
pub open spec fn bump_check(key: Seq<u8>, seeds: Seq<Seq<u8>>, bump: u8, program_id: Seq<u8>) -> Option<ProgramError> {
    match created_address(seeds.push(seq![bump]), program_id) {
        None => Some(ProgramError::ConstraintSeeds),
        Some(k) => if k == key {
            None
        } else {
            Some(ProgramError::ConstraintSeeds)
        },
    }
}

/// Searches the bump seed for `seeds` under `program_id` and checks that the
/// address found is `key`; gives the bump.
pub fn check_found(key: &Pubkey, seeds: &Vec<Vec<u8>>, program_id: &Pubkey) -> (res: Result<u8, ProgramError>)
    ensures
        match res {
            Ok(b) => found_check(key@, seeds.deep_view(), program_id@) is None
                && found_bump(seeds.deep_view(), program_id@) == b
                && bump_check(key@, seeds.deep_view(), b, program_id@) is None,
            Err(e) => found_check(key@, seeds.deep_view(), program_id@) == Some(e),
        },
{
    match try_find_program_address(seeds, program_id) {
        None => Err(ProgramError::BumpNotFound),
        Some((k, b)) => {
            if k.same_as(key) {
                Ok(b)
            } else {
                Err(ProgramError::ConstraintSeeds)
            }
        },
    }
}

/// Checks that `seeds` followed by `bump` derive `key` under `program_id`.
pub fn check_bump(key: &Pubkey, seeds: &Vec<Vec<u8>>, bump: u8, program_id: &Pubkey) -> (res: Option<ProgramError>)
    ensures
        res == bump_check(key@, seeds.deep_view(), bump, program_id@),
{
    let mut with_bump: Vec<Vec<u8>> = Vec::new();
    let mut i: usize = 0;
    while i < seeds.len()
        invariant
            i <= seeds.len(),
            with_bump.deep_view() =~= seeds.deep_view().take(i as int),
        decreases seeds.len() - i,
    {
        let ghost before = with_bump.deep_view();
        let part = crate::text::copy_bytes(&seeds[i]);
        proof {
            crate::text::lemma_bytes_deep_view(part);
            crate::text::lemma_bytes_deep_view(seeds[i as int]);
        }
        with_bump.push(part);
        assert(with_bump.deep_view() =~= before.push(seeds.deep_view()[i as int]));
        i = i + 1;
    }
    let last: Vec<u8> = vec![bump];
    proof {
        crate::text::lemma_bytes_deep_view(last);
    }
    assert(last@ =~= seq![bump]);
    let ghost before = with_bump.deep_view();
    with_bump.push(last);
    assert(with_bump.deep_view() =~= before.push(seq![bump]));
    assert(with_bump.deep_view() =~= seeds.deep_view().push(seq![bump]));
    match create_program_address(&with_bump, program_id) {
        None => Some(ProgramError::ConstraintSeeds),
        Some(k) => {
            if k.same_as(key) {
                None
            } else {
                Some(ProgramError::ConstraintSeeds)
            }
        },
    }
}

/// The check on an associated token account: it must be at the address
/// derived from the wallet, the token program and the mint under the
/// associated token program.
pub open spec fn associated_token_check(key: Pubkey, wallet: Pubkey, mint: Pubkey, token_program: Pubkey) -> Option<
    ProgramError,
> {
    match found_address(spec_associated_token_seeds(wallet, mint, token_program), spec_associated_token_id()) {
        None => Some(ProgramError::BumpNotFound),
        Some(found) => if found.0 == key@ {
            None
        } else {
            Some(ProgramError::AccountNotAssociatedTokenAccount)
        },
    }
}

/// Checks that `key` is the associated token account of `wallet` for `mint`.
pub fn check_associated_token_account(key: &Pubkey, wallet: &Pubkey, mint: &Pubkey, token_program: &Pubkey) -> (res:
    Option<ProgramError>)
    ensures
        res == associated_token_check(*key, *wallet, *mint, *token_program),
{
    match try_find_program_address(&associated_token_seeds(wallet, mint, token_program), &associated_token_id()) {
        None => Some(ProgramError::BumpNotFound),
        Some((k, _)) => {
            if k.same_as(key) {
                None
            } else {
                Some(ProgramError::AccountNotAssociatedTokenAccount)
            }
        },
    }
}

} // verus!
