//! `initialize_config`: create the program configuration, administered by
//! the signer.
use vstd::prelude::*;

use crate::errors::{check_writable, first_error, lemma_first_error_at, lemma_first_error_none, writable_check, ProgramError};
use crate::keys::Pubkey;
use crate::program_ids::{
    check_program, program_check, spec_system_id, system_id,
};
use crate::pda::{bump_check, check_found, found_bump, found_check};
use crate::seeds::{config_seeds, spec_config_seeds, spec_treasury_seeds, treasury_seeds};
use crate::states::Config;

verus! {

/// The accounts of `initialize_config`, by address.
#[derive(Clone, Copy, Debug)]
pub struct InitializeConfig {
    /// Signs and pays; becomes the authority.
    pub authority: Pubkey,
    /// Whether `authority` signed the transaction.
    pub authority_is_signer: bool,
    /// Whether `authority` was passed as writable.
    pub authority_is_writable: bool,
    /// Created here, at the address derived from `"config"`.
    pub config: Pubkey,
    pub config_is_writable: bool,
    /// The treasury, at the address derived from `"treasury"`.
    pub treasury: Pubkey,
    pub treasury_is_writable: bool,
    pub system_program: Pubkey,
}

/// The bump seeds found for the accounts of `initialize_config`.
#[derive(Clone, Copy, Debug, PartialEq, Eq, Structural)]
pub struct InitializeConfigBumps {
    pub config: u8,
    pub treasury: u8,
}

impl InitializeConfig {
    /// The checks on the accounts, in the order they are made.
    pub open spec fn checks(self, program_id: Pubkey) -> Seq<Option<ProgramError>> {
        seq![
            if self.authority_is_signer {
                None
            } else {
                Some(ProgramError::AccountNotSigner)
            },
            program_check(self.system_program, spec_system_id()),
            found_check(self.config@, spec_config_seeds(), program_id@),
            writable_check(self.config_is_writable),
            writable_check(self.authority_is_writable),
            found_check(self.treasury@, spec_treasury_seeds(), program_id@),
            writable_check(self.treasury_is_writable),
        ]
    }

    pub open spec fn spec_bumps(self, program_id: Pubkey) -> InitializeConfigBumps {
        InitializeConfigBumps {
            config: found_bump(spec_config_seeds(), program_id@),
            treasury: found_bump(spec_treasury_seeds(), program_id@),
        }
    }

    /// Checks the signer, the system program, and that the configuration and
    /// the treasury are at the addresses derived from their seeds, each
    /// account to be written passed as writable; gives the bump seeds.
    pub fn try_accounts(&self, program_id: &Pubkey) -> (res: Result<InitializeConfigBumps, ProgramError>)
        ensures
            match res {
                Ok(bumps) => {
                    &&& first_error(self.checks(*program_id)) is None
                    &&& bumps == self.spec_bumps(*program_id)
                    &&& bump_check(self.config@, spec_config_seeds(), bumps.config, program_id@) is None
                },
                Err(e) => first_error(self.checks(*program_id)) == Some(e),
            },
    {
        let ghost checks = self.checks(*program_id);
        if !self.authority_is_signer {
            proof {
                lemma_first_error_at(checks, 0);
            }
            return Err(ProgramError::AccountNotSigner);
        }
        if let Some(e) = check_program(&self.system_program, &system_id()) {
            proof {
                lemma_first_error_at(checks, 1);
            }
            return Err(e);
        }
        let config = match check_found(&self.config, &config_seeds(), program_id) {
            Ok(b) => b,
            Err(e) => {
                proof {
                    lemma_first_error_at(checks, 2);
                }
                return Err(e);
            },
        };
        if let Some(e) = check_writable(self.config_is_writable) {
            proof {
                lemma_first_error_at(checks, 3);
            }
            return Err(e);
        }
        if let Some(e) = check_writable(self.authority_is_writable) {
            proof {
                lemma_first_error_at(checks, 4);
            }
            return Err(e);
        }
        let treasury = match check_found(&self.treasury, &treasury_seeds(), program_id) {
            Ok(b) => b,
            Err(e) => {
                proof {
                    lemma_first_error_at(checks, 5);
                }
                return Err(e);
            },
        };
        if let Some(e) = check_writable(self.treasury_is_writable) {
            proof {
                lemma_first_error_at(checks, 6);
            }
            return Err(e);
        }
        proof {
            lemma_first_error_none(checks);
        }
        Ok(InitializeConfigBumps { config, treasury })
    }
}

/// The configuration that `initialize_config` writes.
pub open spec fn spec_initialize_config(accounts: InitializeConfig, bumps: InitializeConfigBumps) -> Config {
    Config {
        authority: accounts.authority,
        treasury: accounts.treasury,
        event_count: 0,
        treasury_bump: bumps.treasury,
        bump: bumps.config,
    }
}

/// The new configuration: the signer is its authority, the treasury is the
/// derived one, and no event exists yet.
pub fn process_initialize_config(accounts: &InitializeConfig, bumps: &InitializeConfigBumps) -> (res: Config)
    ensures
        res == spec_initialize_config(*accounts, *bumps),
{
    Config {
        authority: accounts.authority,
        treasury: accounts.treasury,
        event_count: 0,
        treasury_bump: bumps.treasury,
        bump: bumps.config,
    }
}

} // verus!
