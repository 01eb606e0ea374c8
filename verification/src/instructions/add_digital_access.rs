//! `add_digital_access`: the creator of an event adds a tier of access to it.
use vstd::prelude::*;

use crate::errors::{
    check_writable, first_error, lemma_first_error_at, lemma_first_error_none, writable_check, DappError, ProgramError,
};
use crate::keys::Pubkey;
use crate::program_ids::{
    check_program, program_check, spec_system_id, system_id,
};
use crate::pda::{bump_check, check_bump, check_found, found_bump, found_check};
use crate::seeds::{digital_access_seeds, event_seeds, spec_digital_access_seeds, spec_event_seeds};
use crate::states::{DigitalAccess, DigitalAccessView, Event, EventView};

verus! {

/// The accounts of `add_digital_access`, by address.
#[derive(Clone, Copy, Debug)]
pub struct AddDigitalAccess {
    /// Signs and pays; must be the event's creator.
    pub creator: Pubkey,
    /// Whether `creator` signed the transaction.
    pub creator_is_signer: bool,
    /// Whether each account written here was passed as writable.
    pub creator_is_writable: bool,
    /// The event, derived from `"event"` and its number.
    pub event: Pubkey,
    pub event_is_writable: bool,
    /// Created here, derived from `"digital_access"`, the event and the number of tiers so far.
    pub digital_access: Pubkey,
    pub digital_access_is_writable: bool,
    pub system_program: Pubkey,
}

/// The bump seed found for the new tier.
#[derive(Clone, Copy, Debug, PartialEq, Eq, Structural)]
pub struct AddDigitalAccessBumps {
    pub digital_access: u8,
}

impl AddDigitalAccess {
    /// The checks on the accounts, in the order they are made.
    pub open spec fn checks(self, program_id: Pubkey, event: EventView, event_id: u64) -> Seq<Option<ProgramError>> {
        seq![
            if self.creator_is_signer {
                None
            } else {
                Some(ProgramError::AccountNotSigner)
            },
            program_check(self.system_program, spec_system_id()),
            found_check(
                self.digital_access@,
                spec_digital_access_seeds(self.event, event.current_digital_access_count),
                program_id@,
            ),
            writable_check(self.digital_access_is_writable),
            writable_check(self.creator_is_writable),
            bump_check(self.event@, spec_event_seeds(event_id), event.bump, program_id@),
            writable_check(self.event_is_writable),
            if event.creator == self.creator {
                None
            } else {
                Some(ProgramError::Custom(DappError::InvalidCreator))
            },
        ]
    }

    pub open spec fn spec_bumps(self, program_id: Pubkey, event: EventView) -> AddDigitalAccessBumps {
        AddDigitalAccessBumps {
            digital_access: found_bump(
                spec_digital_access_seeds(self.event, event.current_digital_access_count),
                program_id@,
            ),
        }
    }

    /// Checks the addresses of the new tier and of the event, and that the
    /// signer created the event; gives the tier's bump seed.
    pub fn try_accounts(&self, program_id: &Pubkey, event: &Event, event_id: u64) -> (res: Result<
        AddDigitalAccessBumps,
        ProgramError,
    >)
        ensures
            match res {
                Ok(bumps) => {
                    &&& first_error(self.checks(*program_id, event@, event_id)) is None
                    &&& bumps == self.spec_bumps(*program_id, event@)
                    &&& bump_check(
                        self.digital_access@,
                        spec_digital_access_seeds(self.event, event.current_digital_access_count),
                        bumps.digital_access,
                        program_id@,
                    ) is None
                },
                Err(e) => first_error(self.checks(*program_id, event@, event_id)) == Some(e),
            },
    {
        let ghost checks = self.checks(*program_id, event@, event_id);
        if !self.creator_is_signer {
            proof {
                lemma_first_error_at(checks, 0);
            }
            return Err(ProgramError::AccountNotSigner);
        }
        if let Some(e) = check_program(&self.system_program, &system_id()) {
            proof {
                lemma_first_error_at(checks, 1);
            }
            return Err(e);
        }
        let digital_access = match check_found(
            &self.digital_access,
            &digital_access_seeds(&self.event, event.current_digital_access_count),
            program_id,
        ) {
            Ok(b) => b,
            Err(e) => {
                proof {
                    lemma_first_error_at(checks, 2);
                }
                return Err(e);
            },
        };
        if let Some(e) = check_writable(self.digital_access_is_writable) {
            proof {
                lemma_first_error_at(checks, 3);
            }
            return Err(e);
        }
        if let Some(e) = check_writable(self.creator_is_writable) {
            proof {
                lemma_first_error_at(checks, 4);
            }
            return Err(e);
        }
        if let Some(e) = check_bump(&self.event, &event_seeds(event_id), event.bump, program_id) {
            proof {
                lemma_first_error_at(checks, 5);
            }
            return Err(e);
        }
        if let Some(e) = check_writable(self.event_is_writable) {
            proof {
                lemma_first_error_at(checks, 6);
            }
            return Err(e);
        }
        if !event.creator.same_as(&self.creator) {
            proof {
                lemma_first_error_at(checks, 7);
            }
            return Err(ProgramError::Custom(DappError::InvalidCreator));
        }
        proof {
            lemma_first_error_none(checks);
        }
        Ok(AddDigitalAccessBumps { digital_access })
    }
}

/// The tier that `add_digital_access` writes: numbered after the tiers the
/// event already has, with nothing minted yet.
pub open spec fn spec_new_digital_access(
    accounts: AddDigitalAccess,
    bumps: AddDigitalAccessBumps,
    event: EventView,
    price: u64,
    max_supply: u64,
    name: Seq<u8>,
    symbol: Seq<u8>,
    description: Seq<u8>,
    uri: Seq<u8>,
) -> DigitalAccessView {
    DigitalAccessView {
        event: accounts.event,
        id: event.current_digital_access_count,
        price,
        max_supply,
        current_minted: 0,
        name,
        symbol,
        description,
        uri,
        bump: bumps.digital_access,
    }
}

/// Creates the tier and counts one more tier in the event.
pub fn process_add_digital_access(
    accounts: &AddDigitalAccess,
    bumps: &AddDigitalAccessBumps,
    event: &mut Event,
    _event_id: u64,
    price: u64,
    max_supply: u64,
    name: Vec<u8>,
    symbol: Vec<u8>,
    description: Vec<u8>,
    uri: Vec<u8>,
) -> (res: DigitalAccess)
    requires
        old(event).current_digital_access_count < u8::MAX,
    ensures
        res@ == spec_new_digital_access(
            *accounts,
            *bumps,
            old(event)@,
            price,
            max_supply,
            name@,
            symbol@,
            description@,
            uri@,
        ),
        final(event)@ == (EventView {
            current_digital_access_count: (old(event).current_digital_access_count + 1) as u8,
            ..old(event)@
        }),
{
    let digital_access = DigitalAccess {
        event: accounts.event,
        id: event.current_digital_access_count,
        price,
        max_supply,
        current_minted: 0,
        name,
        symbol,
        description,
        uri,
        bump: bumps.digital_access,
    };
    event.current_digital_access_count = event.current_digital_access_count + 1;
    digital_access
}

} // verus!
