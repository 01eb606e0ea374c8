//! The addresses of the programs and the sysvar that the instructions are
//! handed, as fixed on the chain.
use vstd::prelude::*;

use crate::errors::ProgramError;
use crate::keys::Pubkey;

verus! {

/// The address of the Metaplex token metadata program, `metaqbxxUerdq28cj1RbAWkYQm3ybzjb6a8bt518x1s`.
pub open spec fn spec_metadata_id() -> Seq<u8> {
    seq![11, 112, 101, 177, 227, 209, 124, 69, 56, 157, 82, 127, 107, 4, 195, 205, 88, 184, 108, 115, 26, 160, 253, 181, 73, 182, 209, 188, 3, 248, 41, 70]
}

/// The address of the Metaplex token metadata program.
pub fn metadata_id() -> (res: Pubkey)
    ensures
        res@ == spec_metadata_id(),
{
    let res = Pubkey([11, 112, 101, 177, 227, 209, 124, 69, 56, 157, 82, 127, 107, 4, 195, 205, 88, 184, 108, 115, 26, 160, 253, 181, 73, 182, 209, 188, 3, 248, 41, 70]);
    assert(res@ =~= spec_metadata_id());
    res
}

/// The address of the SPL token program, `TokenkegQfeZyiNwAJbNbGKPFXCWuBvf9Ss623VQ5DA`.
pub open spec fn spec_token_id() -> Seq<u8> {
    seq![6, 221, 246, 225, 215, 101, 161, 147, 217, 203, 225, 70, 206, 235, 121, 172, 28, 180, 133, 237, 95, 91, 55, 145, 58, 140, 245, 133, 126, 255, 0, 169]
}

/// The address of the SPL token program.
pub fn token_id() -> (res: Pubkey)
    ensures
        res@ == spec_token_id(),
{
    let res = Pubkey([6, 221, 246, 225, 215, 101, 161, 147, 217, 203, 225, 70, 206, 235, 121, 172, 28, 180, 133, 237, 95, 91, 55, 145, 58, 140, 245, 133, 126, 255, 0, 169]);
    assert(res@ =~= spec_token_id());
    res
}

/// The address of the SPL token-2022 program, `TokenzQdBNbLqP5VEhdkAS6EPFLC1PHnBqCXEpPxuEb`.
pub open spec fn spec_token_2022_id() -> Seq<u8> {
    seq![6, 221, 246, 225, 238, 117, 143, 222, 24, 66, 93, 188, 228, 108, 205, 218, 182, 26, 252, 77, 131, 185, 13, 39, 254, 189, 249, 40, 216, 161, 139, 252]
}

/// The address of the SPL token-2022 program.
pub fn token_2022_id() -> (res: Pubkey)
    ensures
        res@ == spec_token_2022_id(),
{
    let res = Pubkey([6, 221, 246, 225, 238, 117, 143, 222, 24, 66, 93, 188, 228, 108, 205, 218, 182, 26, 252, 77, 131, 185, 13, 39, 254, 189, 249, 40, 216, 161, 139, 252]);
    assert(res@ =~= spec_token_2022_id());
    res
}

/// The address of the associated token account program, `ATokenGPvbdGVxr1b2hvZbsiqW5xWH25efTNsLJA8knL`.
pub open spec fn spec_associated_token_id() -> Seq<u8> {
    seq![140, 151, 37, 143, 78, 36, 137, 241, 187, 61, 16, 41, 20, 142, 13, 131, 11, 90, 19, 153, 218, 255, 16, 132, 4, 142, 123, 216, 219, 233, 248, 89]
}

/// The address of the associated token account program.
pub fn associated_token_id() -> (res: Pubkey)
    ensures
        res@ == spec_associated_token_id(),
{
    let res = Pubkey([140, 151, 37, 143, 78, 36, 137, 241, 187, 61, 16, 41, 20, 142, 13, 131, 11, 90, 19, 153, 218, 255, 16, 132, 4, 142, 123, 216, 219, 233, 248, 89]);
    assert(res@ =~= spec_associated_token_id());
    res
}

/// The address of the system program, `11111111111111111111111111111111`.
pub open spec fn spec_system_id() -> Seq<u8> {
    seq![0, 0, 0, 0, 0, 0, 0, 0, 0, 0, 0, 0, 0, 0, 0, 0, 0, 0, 0, 0, 0, 0, 0, 0, 0, 0, 0, 0, 0, 0, 0, 0]
}

/// The address of the system program.
pub fn system_id() -> (res: Pubkey)
    ensures
        res@ == spec_system_id(),
{
    let res = Pubkey([0, 0, 0, 0, 0, 0, 0, 0, 0, 0, 0, 0, 0, 0, 0, 0, 0, 0, 0, 0, 0, 0, 0, 0, 0, 0, 0, 0, 0, 0, 0, 0]);
    assert(res@ =~= spec_system_id());
    res
}

/// The address of the rent sysvar, `SysvarRent111111111111111111111111111111111`.
pub open spec fn spec_rent_sysvar_id() -> Seq<u8> {
    seq![6, 167, 213, 23, 25, 44, 92, 81, 33, 140, 201, 76, 61, 74, 241, 127, 88, 218, 238, 8, 155, 161, 253, 68, 227, 219, 217, 138, 0, 0, 0, 0]
}

/// The address of the rent sysvar.
pub fn rent_sysvar_id() -> (res: Pubkey)
    ensures
        res@ == spec_rent_sysvar_id(),
{
    let res = Pubkey([6, 167, 213, 23, 25, 44, 92, 81, 33, 140, 201, 76, 61, 74, 241, 127, 88, 218, 238, 8, 155, 161, 253, 68, 227, 219, 217, 138, 0, 0, 0, 0]);
    assert(res@ =~= spec_rent_sysvar_id());
    res
}

/// The check on a program account: it must be the program `id`.
pub open spec fn program_check(key: Pubkey, id: Seq<u8>) -> Option<ProgramError> {
    if key@ == id {
        None
    } else {
        Some(ProgramError::InvalidProgramId)
    }
}

/// The check on a token program account: it must be the token program or
/// the token-2022 program.
pub open spec fn token_program_check(key: Pubkey) -> Option<ProgramError> {
    if key@ == spec_token_id() || key@ == spec_token_2022_id() {
        None
    } else {
        Some(ProgramError::InvalidProgramId)
    }
}

/// The check on the rent sysvar account.
pub open spec fn rent_sysvar_check(key: Pubkey) -> Option<ProgramError> {
    if key@ == spec_rent_sysvar_id() {
        None
    } else {
        Some(ProgramError::AccountSysvarMismatch)
    }
}

/// Checks that `key` is the program `id`.
pub fn check_program(key: &Pubkey, id: &Pubkey) -> (res: Option<ProgramError>)
    ensures
        res == program_check(*key, id@),
{
    if key.same_as(id) {
        None
    } else {
        Some(ProgramError::InvalidProgramId)
    }
}

/// Checks that `key` is one of the two token programs.
pub fn check_token_program(key: &Pubkey) -> (res: Option<ProgramError>)
    ensures
        res == token_program_check(*key),
{
    if key.same_as(&token_id()) || key.same_as(&token_2022_id()) {
        None
    } else {
        Some(ProgramError::InvalidProgramId)
    }
}

/// Checks that `key` is the rent sysvar.
pub fn check_rent_sysvar(key: &Pubkey) -> (res: Option<ProgramError>)
    ensures
        res == rent_sysvar_check(*key),
{
    if key.same_as(&rent_sysvar_id()) {
        None
    } else {
        Some(ProgramError::AccountSysvarMismatch)
    }
}

} // verus!
