//! The program's instructions as the runtime runs them: the accounts are
//! checked, the instruction's handler runs, the calls it makes into other
//! programs are made, and the accounts it changed are written back.  A
//! refused instruction changes nothing.
//!
//! The refusals decided here are those of the account checks listed for
//! each instruction and of writing its accounts back.  The checks that the
//! runtime wrapper makes as it reads the accounts (which program owns each
//! account, what type of account it holds, whether a program account is
//! executable, whether an account to be created is still free) and the
//! refusals of the programs called are not among them.
use vstd::prelude::*;

use crate::cpi::{CpiInstructionView, Invocation, MetadataAccount, invocations_view};
use crate::errors::{
    first_error, lemma_first_error_append, lemma_first_error_at, lemma_first_error_none, lemma_first_error_none_each,
    write_check, ProgramError,
};
use crate::instructions::add_digital_access::{process_add_digital_access, spec_new_digital_access, AddDigitalAccess};
use crate::instructions::buy_token::{process_buy_token, spec_buy_token_calls, BuyToken};
use crate::instructions::initialize_config::{process_initialize_config, spec_initialize_config, InitializeConfig};
use crate::instructions::initialize_event::{
    process_initialize_event, spec_initialize_event_calls, spec_new_event, InitializeEvent,
};
use crate::instructions::mint_token::{process_mint_token, spec_mint_token_calls, MintToken};
use crate::instructions::update_token_metadata::{
    process_update_token_metadata, spec_update_token_metadata_call, UpdateTokenMetadata,
};
use crate::keys::Pubkey;
use crate::text::{lemma_numbered_names_distinct, numbered_name};
use crate::pda::{bump_check, created_address, derived_at};
use crate::program_ids::spec_associated_token_id;
use crate::seeds::{
    spec_collection_signer_seeds, lemma_digital_access_seeds_distinct, spec_associated_token_seeds, lemma_event_seeds_distinct, lemma_token_mint_seeds_distinct,
    spec_collection_mint_seeds, spec_config_seeds, spec_digital_access_seeds, spec_event_seeds, spec_token_mint_seeds,
};
use crate::states::{digital_access_fits, event_fits, Config, DigitalAccess, Event, EventView};

verus! {

/// Creates the program configuration.  On success the signer is the
/// authority, no event exists yet, and the stored bump re-derives the
/// configuration's address.
pub fn initialize_config(program_id: &Pubkey, accounts: &InitializeConfig) -> (res: Result<Config, ProgramError>)
    ensures
        match res {
            Ok(config) => {
                &&& first_error(accounts.checks(*program_id)) is None
                &&& config == spec_initialize_config(*accounts, accounts.spec_bumps(*program_id))
                &&& accounts.authority_is_signer
                &&& config.authority == accounts.authority
                &&& config.event_count == 0
                &&& bump_check(accounts.config@, spec_config_seeds(), config.bump, program_id@) is None
            },
            Err(e) => first_error(accounts.checks(*program_id)) == Some(e),
        },
{
    let bumps = match accounts.try_accounts(program_id) {
        Ok(b) => b,
        Err(e) => return Err(e),
    };
    proof {
        lemma_first_error_none_each(accounts.checks(*program_id), 0);
    }
    Ok(process_initialize_config(accounts, &bumps))
}

/// Writes an account back at the end of an instruction, once the calls
/// that the instruction makes into other programs have returned: refused
/// when the account's new state does not fit in its space.
pub fn write_back(fits: bool) -> (res: Result<(), ProgramError>)
    ensures
        res is Ok <==> fits,
        res is Err ==> res == Err::<(), ProgramError>(ProgramError::AccountDidNotSerialize),
{
    if fits {
        Ok(())
    } else {
        Err(ProgramError::AccountDidNotSerialize)
    }
}

/// Creates an event numbered after the events so far, with its collection.
/// On success the signer is the event's creator, nothing is minted or
/// added yet, the event and its collection mint sit at the addresses
/// derived from the event's number, the stored bump re-derives the event's
/// address, and the configuration counts one more event; on failure the
/// configuration is unchanged.  The calls returned are made next, and the
/// new event is written back after them (`write_back`), so that a name or
/// description too long for the event's space is refused only once the
/// calls have gone through.
#[verifier::rlimit(40)]
pub fn initialize_event(
    program_id: &Pubkey,
    accounts: &InitializeEvent,
    config: &mut Config,
    now: i64,
    name: Vec<u8>,
    symbol: Vec<u8>,
    uri: Vec<u8>,
    event_description: Vec<u8>,
) -> (res: Result<(Event, Vec<Invocation>), ProgramError>)
    requires
        old(config).event_count < u64::MAX,
    ensures
        match res {
            Ok((event, calls)) => {
                let bumps = accounts.spec_bumps(*program_id, *old(config));
                &&& first_error(accounts.checks(*program_id, *old(config))) is None
                &&& event@ == spec_new_event(*accounts, bumps, now, name@, event_description@)
                &&& invocations_view(calls@) == spec_initialize_event_calls(
                    *accounts,
                    bumps,
                    old(config).event_count,
                    name@,
                    symbol@,
                    uri@,
                )
                &&& *final(config) == (Config { event_count: (old(config).event_count + 1) as u64, ..*old(config) })
                &&& accounts.creator_is_signer
                &&& event.creator == accounts.creator
                &&& event@.fits() == event_fits(name@, event_description@)
                &&& event.current_nft_count == 0
                &&& event.current_digital_access_count == 0
                &&& bump_check(accounts.event@, spec_event_seeds(old(config).event_count), event.bump, program_id@) is None
                &&& forall|i: int|
                    0 <= i < calls@.len() ==> created_address(#[trigger] calls@[i]@.signer_seeds, program_id@) == Some(
                        accounts.collection_mint@,
                    )
                &&& derived_at(spec_event_seeds(old(config).event_count), program_id@, accounts.event@)
                &&& derived_at(spec_collection_mint_seeds(old(config).event_count), program_id@, accounts.collection_mint@)
            },
            Err(e) => {
                &&& first_error(accounts.checks(*program_id, *old(config))) == Some(e)
                &&& *final(config) == *old(config)
            },
        },
{
    let ghost checks = accounts.checks(*program_id, *config);
    let bumps = match accounts.try_accounts(program_id, config) {
        Ok(b) => b,
        Err(e) => return Err(e),
    };
    let ghost n = config.event_count;
    let (event, calls) = process_initialize_event(
        accounts,
        &bumps,
        config,
        now,
        name,
        symbol,
        uri,
        event_description,
    );
    proof {
        lemma_first_error_none_each(checks, 0);
        lemma_first_error_none_each(checks, 5);
        lemma_first_error_none_each(checks, 7);
    }
    proof {
        assert forall|i: int| 0 <= i < calls@.len() implies created_address(
            #[trigger] calls@[i]@.signer_seeds,
            program_id@,
        ) == Some(accounts.collection_mint@) by {
            let seeds = spec_collection_signer_seeds(n, bumps.collection_mint);
            let spec_calls = invocations_view(calls@);
            assert(spec_calls.len() == calls@.len());
            assert(spec_calls.len() == 4);
            assert(spec_calls[i].signer_seeds == calls@[i]@.signer_seeds);
            if i == 0 {
                assert(spec_calls[0].signer_seeds == seeds);
            } else if i == 1 {
                assert(spec_calls[1].signer_seeds == seeds);
            } else if i == 2 {
                assert(spec_calls[2].signer_seeds == seeds);
            } else {
                assert(spec_calls[3].signer_seeds == seeds);
            }
        }
    }
    Ok((event, calls))
}

/// The refusals of `add_digital_access` decided here, in order: the checks
/// on the accounts, then writing back the event and the new tier.
pub open spec fn add_digital_access_errors(
    program_id: Pubkey,
    accounts: AddDigitalAccess,
    event: EventView,
    event_id: u64,
    name: Seq<u8>,
    symbol: Seq<u8>,
    description: Seq<u8>,
    uri: Seq<u8>,
) -> Seq<Option<ProgramError>> {
    accounts.checks(program_id, event, event_id) + seq![
        write_check(event.fits()),
        write_check(digital_access_fits(name, symbol, description, uri)),
    ]
}

/// Adds a tier of access to an event, numbered after the tiers it has.
/// Only the event's creator may do so.  On success the tier sits at the
/// address derived from its number and the event counts one more tier; on
/// failure the event is unchanged.
#[verifier::rlimit(40)]
pub fn add_digital_access(
    program_id: &Pubkey,
    accounts: &AddDigitalAccess,
    event: &mut Event,
    event_id: u64,
    price: u64,
    max_supply: u64,
    name: Vec<u8>,
    symbol: Vec<u8>,
    description: Vec<u8>,
    uri: Vec<u8>,
) -> (res: Result<DigitalAccess, ProgramError>)
    requires
        old(event).current_digital_access_count < u8::MAX,
    ensures
        match res {
            Ok(access) => {
                &&& first_error(
                    add_digital_access_errors(
                        *program_id,
                        *accounts,
                        old(event)@,
                        event_id,
                        name@,
                        symbol@,
                        description@,
                        uri@,
                    ),
                ) is None
                &&& access@ == spec_new_digital_access(
                    *accounts,
                    accounts.spec_bumps(*program_id, old(event)@),
                    old(event)@,
                    price,
                    max_supply,
                    name@,
                    symbol@,
                    description@,
                    uri@,
                )
                &&& final(event)@ == (EventView {
                    current_digital_access_count: (old(event).current_digital_access_count + 1) as u8,
                    ..old(event)@
                })
                &&& accounts.creator_is_signer
                &&& old(event).creator == accounts.creator
                &&& access@.fits()
                &&& access.id == old(event).current_digital_access_count
                &&& access.current_minted == 0
                &&& bump_check(
                    accounts.digital_access@,
                    spec_digital_access_seeds(accounts.event, old(event).current_digital_access_count),
                    access.bump,
                    program_id@,
                ) is None
                &&& derived_at(
                    spec_digital_access_seeds(accounts.event, old(event).current_digital_access_count),
                    program_id@,
                    accounts.digital_access@,
                )
            },
            Err(e) => {
                &&& first_error(
                    add_digital_access_errors(
                        *program_id,
                        *accounts,
                        old(event)@,
                        event_id,
                        name@,
                        symbol@,
                        description@,
                        uri@,
                    ),
                ) == Some(e)
                &&& final(event)@ == old(event)@
            },
        },
{
    let ghost checks = accounts.checks(*program_id, event@, event_id);
    let ghost all = add_digital_access_errors(
        *program_id,
        *accounts,
        event@,
        event_id,
        name@,
        symbol@,
        description@,
        uri@,
    );
    let ghost tail = seq![
        write_check(event@.fits()),
        write_check(digital_access_fits(name@, symbol@, description@, uri@)),
    ];
    proof {
        lemma_first_error_append(checks, tail);
        assert(all == checks + tail);
    }
    let bumps = match accounts.try_accounts(program_id, event, event_id) {
        Ok(b) => b,
        Err(e) => return Err(e),
    };
    let saved = event.current_digital_access_count;
    let access = process_add_digital_access(
        accounts,
        &bumps,
        event,
        event_id,
        price,
        max_supply,
        name,
        symbol,
        description,
        uri,
    );
    if !event.fits() {
        event.current_digital_access_count = saved;
        assert(event@ == old(event)@);
        proof {
            lemma_first_error_at(tail, 0);
        }
        return Err(ProgramError::AccountDidNotSerialize);
    }
    if !access.fits() {
        event.current_digital_access_count = saved;
        assert(event@ == old(event)@);
        proof {
            lemma_first_error_at(tail, 1);
        }
        return Err(ProgramError::AccountDidNotSerialize);
    }
    proof {
        lemma_first_error_none(tail);
        lemma_first_error_none_each(checks, 7);
        lemma_first_error_none_each(checks, 2);
        lemma_first_error_none_each(checks, 0);
    }
    Ok(access)
}

/// Mints the event's next ticket to a destination.  Only the configured
/// authority may do so.  On success the ticket's mint sits at the address
/// derived from the ticket's number, the destination's token account is its
/// associated one for that mint, the event counts one more ticket and the
/// ticket is named after its number; on failure the event is unchanged.
/// The event is written back after the calls returned are made
/// (`write_back`).
#[verifier::rlimit(40)]
pub fn mint_token(
    program_id: &Pubkey,
    accounts: &MintToken,
    config: &Config,
    event: &mut Event,
    event_id: u64,
    name: Vec<u8>,
    symbol: Vec<u8>,
    uri: Vec<u8>,
) -> (res: Result<Vec<Invocation>, ProgramError>)
    requires
        old(event).current_nft_count < u64::MAX,
    ensures
        match res {
            Ok(calls) => {
                &&& first_error(accounts.checks(*program_id, *config, old(event)@, event_id)) is None
                &&& invocations_view(calls@) == spec_mint_token_calls(
                    *accounts,
                    accounts.spec_bumps(*program_id, old(event)@, event_id),
                    old(event)@,
                    event_id,
                    name@,
                    symbol@,
                    uri@,
                )
                &&& final(event)@ == (EventView {
                    current_nft_count: (old(event).current_nft_count + 1) as u64,
                    ..old(event)@
                })
                &&& accounts.authority_is_signer
                &&& config.authority == accounts.authority
                &&& derived_at(
                    spec_token_mint_seeds(accounts.collection_mint, old(event).current_nft_count),
                    program_id@,
                    accounts.token_mint@,
                )
                &&& derived_at(
                    spec_associated_token_seeds(accounts.destination, accounts.token_mint, accounts.token_program),
                    spec_associated_token_id(),
                    accounts.destination_token_account@,
                )
                &&& forall|i: int|
                    0 <= i < calls@.len() ==> created_address(#[trigger] calls@[i]@.signer_seeds, program_id@) == Some(
                        accounts.collection_mint@,
                    )
            },
            Err(e) => {
                &&& first_error(accounts.checks(*program_id, *config, old(event)@, event_id)) == Some(e)
                &&& final(event)@ == old(event)@
            },
        },
{
    let ghost checks = accounts.checks(*program_id, *config, event@, event_id);
    let bumps = match accounts.try_accounts(program_id, config, event, event_id) {
        Ok(b) => b,
        Err(e) => return Err(e),
    };
    let calls = process_mint_token(program_id, accounts, &bumps, config, event, event_id, name, symbol, uri);
    proof {
        lemma_first_error_none_each(checks, 13);
        lemma_first_error_none_each(checks, 6);
        lemma_first_error_none_each(checks, 8);
        lemma_first_error_none_each(checks, 0);
    }
    proof {
        assert forall|i: int| 0 <= i < calls@.len() implies created_address(
            #[trigger] calls@[i]@.signer_seeds,
            program_id@,
        ) == Some(accounts.collection_mint@) by {
            let seeds = spec_collection_signer_seeds(event_id, bumps.collection_mint);
            let spec_calls = invocations_view(calls@);
            assert(spec_calls.len() == calls@.len());
            assert(spec_calls.len() == 4);
            assert(spec_calls[i].signer_seeds == calls@[i]@.signer_seeds);
            if i == 0 {
                assert(spec_calls[0].signer_seeds == seeds);
            } else if i == 1 {
                assert(spec_calls[1].signer_seeds == seeds);
            } else if i == 2 {
                assert(spec_calls[2].signer_seeds == seeds);
            } else {
                assert(spec_calls[3].signer_seeds == seeds);
            }
        }
    }
    Ok(calls)
}

/// Sells the event's next ticket to the signer.  The first call pays the
/// event's ticket price from the buyer to the event's creator.  On success
/// the ticket's mint sits at the address derived from the ticket's number,
/// the buyer's token account is its associated one for that mint, and the
/// event counts one more ticket; on failure the event is unchanged.  The
/// event is written back after the calls returned are made (`write_back`).
#[verifier::rlimit(40)]
pub fn buy_token(
    program_id: &Pubkey,
    accounts: &BuyToken,
    config: &Config,
    event: &mut Event,
    event_id: u64,
    name: Vec<u8>,
    symbol: Vec<u8>,
    uri: Vec<u8>,
) -> (res: Result<Vec<Invocation>, ProgramError>)
    requires
        old(event).current_nft_count < u64::MAX,
    ensures
        match res {
            Ok(calls) => {
                &&& first_error(accounts.checks(*program_id, *config, old(event)@, event_id)) is None
                &&& invocations_view(calls@) == spec_buy_token_calls(
                    *accounts,
                    accounts.spec_bumps(*program_id, old(event)@, event_id),
                    old(event)@,
                    event_id,
                    name@,
                    symbol@,
                    uri@,
                )
                &&& final(event)@ == (EventView {
                    current_nft_count: (old(event).current_nft_count + 1) as u64,
                    ..old(event)@
                })
                &&& accounts.buyer_is_signer
                &&& calls@[0]@.instruction == (CpiInstructionView::Transfer {
                    from: accounts.buyer,
                    to: old(event).creator,
                    lamports: old(event).ticket_price,
                })
                &&& derived_at(
                    spec_token_mint_seeds(accounts.collection_mint, old(event).current_nft_count),
                    program_id@,
                    accounts.token_mint@,
                )
                &&& derived_at(
                    spec_associated_token_seeds(accounts.buyer, accounts.token_mint, accounts.token_program),
                    spec_associated_token_id(),
                    accounts.buyer_token_account@,
                )
                &&& forall|i: int|
                    1 <= i < calls@.len() ==> created_address(#[trigger] calls@[i]@.signer_seeds, program_id@) == Some(
                        accounts.collection_mint@,
                    )
            },
            Err(e) => {
                &&& first_error(accounts.checks(*program_id, *config, old(event)@, event_id)) == Some(e)
                &&& final(event)@ == old(event)@
            },
        },
{
    let ghost checks = accounts.checks(*program_id, *config, event@, event_id);
    let bumps = match accounts.try_accounts(program_id, config, event, event_id) {
        Ok(b) => b,
        Err(e) => return Err(e),
    };
    let calls = process_buy_token(program_id, accounts, &bumps, config, event, event_id, name, symbol, uri);
    assert(invocations_view(calls@).len() == 5);
    assert(invocations_view(calls@)[0] == calls@[0]@);
    proof {
        lemma_first_error_none_each(checks, 16);
        lemma_first_error_none_each(checks, 6);
        lemma_first_error_none_each(checks, 8);
        lemma_first_error_none_each(checks, 0);
    }
    proof {
        assert forall|i: int| 1 <= i < calls@.len() implies created_address(
            #[trigger] calls@[i]@.signer_seeds,
            program_id@,
        ) == Some(accounts.collection_mint@) by {
            let seeds = spec_collection_signer_seeds(event_id, bumps.collection_mint);
            let spec_calls = invocations_view(calls@);
            assert(spec_calls.len() == calls@.len());
            assert(spec_calls.len() == 5);
            assert(spec_calls[i].signer_seeds == calls@[i]@.signer_seeds);
            if i == 1 {
                assert(spec_calls[1].signer_seeds == seeds);
            } else if i == 2 {
                assert(spec_calls[2].signer_seeds == seeds);
            } else if i == 3 {
                assert(spec_calls[3].signer_seeds == seeds);
            } else {
                assert(spec_calls[4].signer_seeds == seeds);
            }
        }
    }
    Ok(calls)
}

/// Points a ticket's metadata at a new URI.  Only the configured authority
/// may do so; nothing of the program's own state changes.
pub fn update_token_metadata(
    program_id: &Pubkey,
    accounts: &UpdateTokenMetadata,
    config: &Config,
    event: &Event,
    metadata: &MetadataAccount,
    event_id: u64,
    token_id: u64,
    uri: Vec<u8>,
) -> (res: Result<Invocation, ProgramError>)
    ensures
        match res {
            Ok(call) => {
                &&& first_error(accounts.checks(*program_id, *config, event@, event_id, token_id)) is None
                &&& call@ == spec_update_token_metadata_call(
                    *accounts,
                    accounts.spec_bumps(*program_id, event_id, token_id),
                    metadata@,
                    event_id,
                    uri@,
                )
                &&& accounts.authority_is_signer
                &&& config.authority == accounts.authority
                &&& created_address(call@.signer_seeds, program_id@) == Some(accounts.collection_mint@)
            },
            Err(e) => first_error(accounts.checks(*program_id, *config, event@, event_id, token_id)) == Some(e),
        },
{
    let bumps = match accounts.try_accounts(program_id, config, event, event_id, token_id) {
        Ok(b) => b,
        Err(e) => return Err(e),
    };
    proof {
        lemma_first_error_none_each(accounts.checks(*program_id, *config, event@, event_id, token_id), 4);
        lemma_first_error_none_each(accounts.checks(*program_id, *config, event@, event_id, token_id), 0);
    }
    Ok(process_update_token_metadata(accounts, &bumps, metadata, event_id, token_id, uri))
}

/// The configuration `c` once it counts `n` events.
pub open spec fn with_event_count(c: Config, n: u64) -> Config {
    Config { event_count: n, ..c }
}

/// The event `e` once it counts `n` tickets.
pub open spec fn with_ticket_count(e: EventView, n: u64) -> EventView {
    EventView { current_nft_count: n, ..e }
}

/// The event `e` once it counts `n` tiers.
pub open spec fn with_tier_count(e: EventView, n: u8) -> EventView {
    EventView { current_digital_access_count: n, ..e }
}

/// What one successful `initialize_event` does to the configuration: one
/// more event, nothing else.
pub open spec fn counts_one_more_event(before: Config, after: Config) -> bool {
    &&& before.event_count < u64::MAX
    &&& after == with_event_count(before, (before.event_count + 1) as u64)
}

/// What one successful `mint_token` or `buy_token` does to the event: one
/// more ticket, nothing else.
pub open spec fn counts_one_more_ticket(before: EventView, after: EventView) -> bool {
    &&& before.current_nft_count < u64::MAX
    &&& after == with_ticket_count(before, (before.current_nft_count + 1) as u64)
}

/// What one successful `add_digital_access` does to the event: one more
/// tier, nothing else.
pub open spec fn counts_one_more_tier(before: EventView, after: EventView) -> bool {
    &&& before.current_digital_access_count < u8::MAX
    &&& after == with_tier_count(before, (before.current_digital_access_count + 1) as u8)
}

/// Over a run of instructions, `in_use[i]` holds the addresses in use
/// before step `i`.  The program closes no account, so an address once in
/// use stays in use.
pub open spec fn ledger_grows(in_use: Seq<Set<Seq<u8>>>) -> bool {
    forall|i: int, j: int| 0 <= i <= j < in_use.len() ==> #[trigger] in_use[i].subset_of(#[trigger] in_use[j])
}

/// Step `i` of the run created the account `key`: the runtime creates an
/// account only at an address not in use, and it is in use afterwards.
pub open spec fn created_at(in_use: Seq<Set<Seq<u8>>>, i: int, key: Pubkey) -> bool {
    &&& !in_use[i].contains(key@)
    &&& in_use[i + 1].contains(key@)
}

/// The accounts that the steps of a run created, one per step, all in the
/// ledger of the run.
pub open spec fn fresh_creations(in_use: Seq<Set<Seq<u8>>>, created: Seq<Pubkey>) -> bool {
    &&& in_use.len() == created.len() + 1
    &&& ledger_grows(in_use)
    &&& forall|i: int| 0 <= i < created.len() ==> #[trigger] created_at(in_use, i, created[i])
}

/// Accounts created one per step of a run sit at pairwise distinct
/// addresses.
pub proof fn lemma_fresh_creations_distinct(in_use: Seq<Set<Seq<u8>>>, created: Seq<Pubkey>)
    requires
        fresh_creations(in_use, created),
    ensures
        forall|i: int, j: int| 0 <= i < j < created.len() ==> #[trigger] created[i]@ != #[trigger] created[j]@,
{
    assert forall|i: int, j: int| 0 <= i < j < created.len() implies #[trigger] created[i]@ != #[trigger] created[j]@ by {
        assert(created_at(in_use, i, created[i]));
        assert(created_at(in_use, j, created[j]));
        assert(in_use[i + 1].subset_of(in_use[j]));
    }
}

/// Step `i` of a run of event creations.
pub open spec fn event_step(configs: Seq<Config>, i: int) -> bool {
    counts_one_more_event(configs[i], configs[i + 1])
}

/// Step `i` of a run of ticket mints or sales.
pub open spec fn ticket_step(events: Seq<EventView>, i: int) -> bool {
    counts_one_more_ticket(events[i], events[i + 1])
}

/// Step `i` of a run of tier additions.
pub open spec fn tier_step(events: Seq<EventView>, i: int) -> bool {
    counts_one_more_tier(events[i], events[i + 1])
}

proof fn lemma_event_steps(configs: Seq<Config>, k: int)
    requires
        configs.len() == k + 1,
        forall|i: int| 0 <= i < k ==> #[trigger] event_step(configs, i),
    ensures
        forall|i: int|
            0 <= i <= k ==> #[trigger] configs[i].event_count == configs[0].event_count + i
                && configs[i] == with_event_count(configs[0], configs[i].event_count),
    decreases k,
{
    if k > 0 {
        let prefix = configs.take(k);
        assert forall|i: int| 0 <= i < k - 1 implies #[trigger] event_step(prefix, i) by {
            assert(event_step(configs, i));
        }
        lemma_event_steps(prefix, k - 1);
        assert(event_step(configs, k - 1));
        assert forall|i: int| 0 <= i <= k implies #[trigger] configs[i].event_count == configs[0].event_count + i
                && configs[i] == with_event_count(configs[0], configs[i].event_count) by {
            if i < k {
                assert(configs[i] == prefix[i]);
            } else {
                assert(configs[k - 1] == prefix[k - 1]);
            }
        }
    }
}

/// Events created one after the other, each `initialize_event` starting
/// from the configuration that the previous one left and creating its event
/// at the address derived from the number it was given: the `i`-th event is
/// numbered `n + i` (`n` the count at the start) and sits at the address
/// derived from that number, the configuration ends counting `n + k` events
/// with nothing else changed, and no two of the events, nor of their
/// collection mints, are derived from the same seeds.  The collection mints
/// sit at the addresses derived from the same numbers; and where the
/// runtime created each of these accounts at an address not in use yet, as
/// it does every account that an instruction creates, the events sit at
/// pairwise distinct addresses, and so do their collection mints.
pub proof fn lemma_event_creations(
    program_id: Pubkey,
    configs: Seq<Config>,
    events: Seq<Pubkey>,
    collection_mints: Seq<Pubkey>,
    in_use: Seq<Set<Seq<u8>>>,
)
    requires
        configs.len() == events.len() + 1,
        collection_mints.len() == events.len(),
        forall|i: int| 0 <= i < events.len() ==> #[trigger] event_step(configs, i),
        forall|i: int|
            0 <= i < events.len() ==> #[trigger] derived_at(
                spec_event_seeds(configs[i].event_count),
                program_id@,
                events[i]@,
            ),
        forall|i: int|
            0 <= i < events.len() ==> #[trigger] derived_at(
                spec_collection_mint_seeds(configs[i].event_count),
                program_id@,
                collection_mints[i]@,
            ),
    ensures
        forall|i: int|
            0 <= i < events.len() ==> #[trigger] derived_at(
                spec_collection_mint_seeds((configs[0].event_count + i) as u64),
                program_id@,
                collection_mints[i]@,
            ),
        fresh_creations(in_use, events) && fresh_creations(in_use, collection_mints) ==> forall|i: int, j: int|
            0 <= i < j < events.len() ==> #[trigger] events[i]@ != #[trigger] events[j]@ && collection_mints[i]@
                != collection_mints[j]@,
        forall|i: int|
            0 <= i < configs.len() ==> #[trigger] configs[i].event_count == configs[0].event_count + i
                && configs[i] == with_event_count(configs[0], configs[i].event_count),
        forall|i: int|
            0 <= i < events.len() ==> #[trigger] derived_at(
                spec_event_seeds((configs[0].event_count + i) as u64),
                program_id@,
                events[i]@,
            ),
        forall|i: int, j: int|
            0 <= i < j < events.len() ==> spec_event_seeds(#[trigger] configs[i].event_count) != spec_event_seeds(
                #[trigger] configs[j].event_count,
            ) && spec_collection_mint_seeds(configs[i].event_count) != spec_collection_mint_seeds(
                configs[j].event_count,
            ),
{
    let k = events.len() as int;
    lemma_event_steps(configs, k);
    assert forall|i: int, j: int| 0 <= i < j < k implies spec_event_seeds(#[trigger] configs[i].event_count)
        != spec_event_seeds(#[trigger] configs[j].event_count) && spec_collection_mint_seeds(
        configs[i].event_count,
    ) != spec_collection_mint_seeds(configs[j].event_count) by {
        assert(configs[i].event_count == configs[0].event_count + i);
        assert(configs[j].event_count == configs[0].event_count + j);
        lemma_event_seeds_distinct(configs[i].event_count, configs[j].event_count);
    }
    assert forall|i: int| 0 <= i < k implies #[trigger] derived_at(
        spec_event_seeds((configs[0].event_count + i) as u64),
        program_id@,
        events[i]@,
    ) by {
        assert(configs[i].event_count == configs[0].event_count + i);
        assert(derived_at(spec_event_seeds(configs[i].event_count), program_id@, events[i]@));
    }
    assert forall|i: int| 0 <= i < k implies #[trigger] derived_at(
        spec_collection_mint_seeds((configs[0].event_count + i) as u64),
        program_id@,
        collection_mints[i]@,
    ) by {
        assert(configs[i].event_count == configs[0].event_count + i);
        assert(derived_at(spec_collection_mint_seeds(configs[i].event_count), program_id@, collection_mints[i]@));
    }
    if fresh_creations(in_use, events) && fresh_creations(in_use, collection_mints) {
        lemma_fresh_creations_distinct(in_use, events);
        lemma_fresh_creations_distinct(in_use, collection_mints);
        assert forall|i: int, j: int| 0 <= i < j < k implies #[trigger] events[i]@ != #[trigger] events[j]@
            && collection_mints[i]@ != collection_mints[j]@ by {
            assert(collection_mints[i]@ != collection_mints[j]@);
        }
    }
}

proof fn lemma_ticket_steps(events: Seq<EventView>, k: int)
    requires
        events.len() == k + 1,
        forall|i: int| 0 <= i < k ==> #[trigger] ticket_step(events, i),
    ensures
        forall|i: int|
            0 <= i <= k ==> #[trigger] events[i].current_nft_count == events[0].current_nft_count + i
                && events[i] == with_ticket_count(events[0], events[i].current_nft_count),
    decreases k,
{
    if k > 0 {
        let prefix = events.take(k);
        assert forall|i: int| 0 <= i < k - 1 implies #[trigger] ticket_step(prefix, i) by {
            assert(ticket_step(events, i));
        }
        lemma_ticket_steps(prefix, k - 1);
        assert(ticket_step(events, k - 1));
        assert forall|i: int| 0 <= i <= k implies #[trigger] events[i].current_nft_count == events[0].current_nft_count + i
                && events[i] == with_ticket_count(events[0], events[i].current_nft_count) by {
            if i < k {
                assert(events[i] == prefix[i]);
            } else {
                assert(events[k - 1] == prefix[k - 1]);
            }
        }
    }
}

/// Tickets minted or sold one after the other on one event, each
/// `mint_token` or `buy_token` starting from the event that the previous
/// one left and minting into the address derived from the ticket number it
/// was given: the `i`-th ticket is numbered `c + i` (`c` the count at the
/// start), its mint sits at the address derived from that number, the event
/// ends counting `c + k` tickets with nothing else changed, no two ticket
/// mints are derived from the same seeds, and no two tickets minted under
/// one name get the same numbered name.  Where the runtime created each
/// ticket mint at an address not in use yet, the mints sit at pairwise
/// distinct addresses.
pub proof fn lemma_ticket_issues(
    program_id: Pubkey,
    collection_mint: Pubkey,
    events: Seq<EventView>,
    mints: Seq<Pubkey>,
    in_use: Seq<Set<Seq<u8>>>,
)
    requires
        events.len() == mints.len() + 1,
        forall|i: int| 0 <= i < mints.len() ==> #[trigger] ticket_step(events, i),
        forall|i: int|
            0 <= i < mints.len() ==> #[trigger] derived_at(
                spec_token_mint_seeds(collection_mint, events[i].current_nft_count),
                program_id@,
                mints[i]@,
            ),
    ensures
        forall|i: int|
            0 <= i < events.len() ==> #[trigger] events[i].current_nft_count == events[0].current_nft_count + i
                && events[i] == with_ticket_count(events[0], events[i].current_nft_count),
        forall|i: int|
            0 <= i < mints.len() ==> #[trigger] derived_at(
                spec_token_mint_seeds(collection_mint, (events[0].current_nft_count + i) as u64),
                program_id@,
                mints[i]@,
            ),
        forall|i: int, j: int|
            0 <= i < j < mints.len() ==> spec_token_mint_seeds(collection_mint, #[trigger] events[i].current_nft_count)
                != spec_token_mint_seeds(collection_mint, #[trigger] events[j].current_nft_count),
        forall|name: Seq<u8>, i: int, j: int|
            0 <= i < j < mints.len() ==> #[trigger] numbered_name(name, events[i].current_nft_count as nat)
                != #[trigger] numbered_name(name, events[j].current_nft_count as nat),
        fresh_creations(in_use, mints) ==> forall|i: int, j: int|
            0 <= i < j < mints.len() ==> #[trigger] mints[i]@ != #[trigger] mints[j]@,
{
    if fresh_creations(in_use, mints) {
        lemma_fresh_creations_distinct(in_use, mints);
    }
    let k = mints.len() as int;
    lemma_ticket_steps(events, k);
    assert forall|i: int, j: int| 0 <= i < j < k implies spec_token_mint_seeds(
        collection_mint,
        #[trigger] events[i].current_nft_count,
    ) != spec_token_mint_seeds(collection_mint, #[trigger] events[j].current_nft_count) by {
        assert(events[i].current_nft_count == events[0].current_nft_count + i);
        assert(events[j].current_nft_count == events[0].current_nft_count + j);
        lemma_token_mint_seeds_distinct(collection_mint, events[i].current_nft_count, events[j].current_nft_count);
    }
    assert forall|name: Seq<u8>, i: int, j: int| 0 <= i < j < k implies #[trigger] numbered_name(
        name,
        events[i].current_nft_count as nat,
    ) != #[trigger] numbered_name(name, events[j].current_nft_count as nat) by {
        assert(events[i].current_nft_count == events[0].current_nft_count + i);
        assert(events[j].current_nft_count == events[0].current_nft_count + j);
        lemma_numbered_names_distinct(
            name,
            events[i].current_nft_count as nat,
            events[j].current_nft_count as nat,
        );
    }
    assert forall|i: int| 0 <= i < k implies #[trigger] derived_at(
        spec_token_mint_seeds(collection_mint, (events[0].current_nft_count + i) as u64),
        program_id@,
        mints[i]@,
    ) by {
        assert(events[i].current_nft_count == events[0].current_nft_count + i);
        assert(derived_at(spec_token_mint_seeds(collection_mint, events[i].current_nft_count), program_id@, mints[i]@));
    }
}

proof fn lemma_tier_steps(events: Seq<EventView>, k: int)
    requires
        events.len() == k + 1,
        forall|i: int| 0 <= i < k ==> #[trigger] tier_step(events, i),
    ensures
        forall|i: int|
            0 <= i <= k ==> #[trigger] events[i].current_digital_access_count == events[0].current_digital_access_count + i
                && events[i] == with_tier_count(events[0], events[i].current_digital_access_count),
    decreases k,
{
    if k > 0 {
        let prefix = events.take(k);
        assert forall|i: int| 0 <= i < k - 1 implies #[trigger] tier_step(prefix, i) by {
            assert(tier_step(events, i));
        }
        lemma_tier_steps(prefix, k - 1);
        assert(tier_step(events, k - 1));
        assert forall|i: int| 0 <= i <= k implies #[trigger] events[i].current_digital_access_count == events[0].current_digital_access_count + i
                && events[i] == with_tier_count(events[0], events[i].current_digital_access_count) by {
            if i < k {
                assert(events[i] == prefix[i]);
            } else {
                assert(events[k - 1] == prefix[k - 1]);
            }
        }
    }
}

/// Tiers added one after the other to one event, each `add_digital_access`
/// starting from the event that the previous one left, numbering its tier
/// after the event's count and creating it at the address derived from that
/// number: the `i`-th tier gets the number `c + i` (`c` the count at the
/// start) and sits at the address derived from it, the event ends counting
/// `c + k` tiers with nothing else changed, and no two tiers share a number
/// or their seeds.  Where the runtime created each tier at an address not
/// in use yet, the tiers sit at pairwise distinct addresses.
pub proof fn lemma_tier_additions(
    program_id: Pubkey,
    event_key: Pubkey,
    events: Seq<EventView>,
    tiers: Seq<Pubkey>,
    ids: Seq<u8>,
    in_use: Seq<Set<Seq<u8>>>,
)
    requires
        events.len() == tiers.len() + 1,
        ids.len() == tiers.len(),
        forall|i: int| 0 <= i < tiers.len() ==> #[trigger] tier_step(events, i),
        forall|i: int| 0 <= i < tiers.len() ==> #[trigger] ids[i] == events[i].current_digital_access_count,
        forall|i: int|
            0 <= i < tiers.len() ==> #[trigger] derived_at(
                spec_digital_access_seeds(event_key, events[i].current_digital_access_count),
                program_id@,
                tiers[i]@,
            ),
    ensures
        forall|i: int|
            0 <= i < events.len() ==> #[trigger] events[i].current_digital_access_count == events[0].current_digital_access_count + i
                && events[i] == with_tier_count(events[0], events[i].current_digital_access_count),
        forall|i: int| 0 <= i < tiers.len() ==> #[trigger] ids[i] == events[0].current_digital_access_count + i,
        forall|i: int|
            0 <= i < tiers.len() ==> #[trigger] derived_at(
                spec_digital_access_seeds(event_key, (events[0].current_digital_access_count + i) as u8),
                program_id@,
                tiers[i]@,
            ),
        forall|i: int, j: int|
            0 <= i < j < tiers.len() ==> #[trigger] ids[i] != #[trigger] ids[j] && spec_digital_access_seeds(
                event_key,
                ids[i],
            ) != spec_digital_access_seeds(event_key, ids[j]),
        fresh_creations(in_use, tiers) ==> forall|i: int, j: int|
            0 <= i < j < tiers.len() ==> #[trigger] tiers[i]@ != #[trigger] tiers[j]@,
{
    if fresh_creations(in_use, tiers) {
        lemma_fresh_creations_distinct(in_use, tiers);
    }
    let k = tiers.len() as int;
    lemma_tier_steps(events, k);
    assert forall|i: int| 0 <= i < k implies #[trigger] ids[i] == events[0].current_digital_access_count + i by {
        assert(events[i].current_digital_access_count == events[0].current_digital_access_count + i);
    }
    assert forall|i: int, j: int| 0 <= i < j < k implies #[trigger] ids[i] != #[trigger] ids[j]
        && spec_digital_access_seeds(event_key, ids[i]) != spec_digital_access_seeds(event_key, ids[j]) by {
        assert(events[i].current_digital_access_count == events[0].current_digital_access_count + i);
        assert(events[j].current_digital_access_count == events[0].current_digital_access_count + j);
        lemma_digital_access_seeds_distinct(event_key, ids[i], ids[j]);
    }
    assert forall|i: int| 0 <= i < k implies #[trigger] derived_at(
        spec_digital_access_seeds(event_key, (events[0].current_digital_access_count + i) as u8),
        program_id@,
        tiers[i]@,
    ) by {
        assert(events[i].current_digital_access_count == events[0].current_digital_access_count + i);
        assert(derived_at(
            spec_digital_access_seeds(event_key, events[i].current_digital_access_count),
            program_id@,
            tiers[i]@,
        ));
    }
}

/// How many of the steps created an event.
pub open spec fn creations(created: Seq<bool>) -> nat
    decreases created.len(),
{
    if created.len() == 0 {
        0
    } else {
        creations(created.drop_last()) + if created.last() {
            1nat
        } else {
            0nat
        }
    }
}

/// Step `i` of a run of instructions, as seen by the configuration: a
/// successful `initialize_event` counts one more event; every other
/// instruction takes the configuration read-only.
pub open spec fn config_step(configs: Seq<Config>, created: Seq<bool>, i: int) -> bool {
    if created[i] {
        counts_one_more_event(configs[i], configs[i + 1])
    } else {
        configs[i + 1] == configs[i]
    }
}

/// The configuration over any run of instructions after it is set up: the
/// authority, the treasury and both bumps never change, and the count is
/// the count at the start plus the number of events created, so it never
/// goes down.
pub proof fn lemma_configuration_only_counts_events(configs: Seq<Config>, created: Seq<bool>)
    requires
        configs.len() == created.len() + 1,
        forall|i: int| 0 <= i < created.len() ==> #[trigger] config_step(configs, created, i),
    ensures
        forall|i: int|
            0 <= i < configs.len() ==> #[trigger] configs[i].event_count == configs[0].event_count + creations(created.take(i))
                && configs[i] == with_event_count(configs[0], configs[i].event_count),
        forall|i: int, j: int|
            0 <= i <= j < configs.len() ==> #[trigger] configs[i].event_count <= #[trigger] configs[j].event_count,
    decreases created.len(),
{
    let k = created.len() as int;
    if k > 0 {
        let cs = configs.take(k);
        let cr = created.take(k - 1);
        assert forall|i: int| 0 <= i < cr.len() implies #[trigger] config_step(cs, cr, i) by {
            assert(config_step(configs, created, i));
        }
        lemma_configuration_only_counts_events(cs, cr);
        assert(config_step(configs, created, k - 1));
        assert(created.take(k).drop_last() =~= cr);
        assert(created.take(k) =~= created);
        assert(cr.take(k - 1) =~= cr);
        assert(configs[k - 1] == cs[k - 1]);
        assert forall|i: int| 0 <= i < configs.len() implies #[trigger] configs[i].event_count == configs[0].event_count + creations(created.take(i))
                && configs[i] == with_event_count(configs[0], configs[i].event_count) by {
            if i < k {
                assert(configs[i] == cs[i]);
                assert(created.take(i) =~= cr.take(i));
            }
        }
        assert forall|i: int, j: int| 0 <= i <= j < configs.len() implies #[trigger] configs[i].event_count
            <= #[trigger] configs[j].event_count by {
            if j < k {
                assert(configs[i] == cs[i]);
                assert(configs[j] == cs[j]);
            } else if i < k {
                assert(configs[i] == cs[i]);
                assert(cs[i].event_count <= cs[k - 1].event_count);
            }
        }
    }
}

} // verus!
