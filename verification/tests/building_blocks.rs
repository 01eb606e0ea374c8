use boltick::constants::{
    seed_collection_mint, seed_collection_token_account, seed_config, seed_digital_access, seed_edition, seed_event,
    seed_metadata, seed_token_mint, seed_treasury, ANCHOR_DISCRIMINATOR,
};
use boltick::pda::{check_associated_token_account, check_bump, check_found};
use boltick::program_ids::{
    associated_token_id, check_program, check_rent_sysvar, check_token_program, metadata_id, rent_sysvar_id, system_id,
    token_2022_id, token_id,
};
use boltick::seeds::{
    associated_token_seeds, collection_signer_seeds, digital_access_seeds, edition_seeds, event_seeds, metadata_seeds, token_mint_seeds,
};
use boltick::states::{CONFIG_INIT_SPACE, DIGITAL_ACCESS_INIT_SPACE, EVENT_INIT_SPACE};
use boltick::text::token_name;
use boltick::{DappError, Event, ProgramError, Pubkey};

fn sdk(k: &Pubkey) -> anchor_lang::prelude::Pubkey {
    anchor_lang::prelude::Pubkey::new_from_array(k.0)
}

fn pda(seeds: &[&[u8]], program: &Pubkey) -> (Pubkey, u8) {
    let (k, b) = anchor_lang::prelude::Pubkey::find_program_address(seeds, &sdk(program));
    (Pubkey(k.to_bytes()), b)
}

#[test]
fn seed_constants_spell_their_names() {
    assert_eq!(seed_config(), b"config".to_vec());
    assert_eq!(seed_treasury(), b"treasury".to_vec());
    assert_eq!(seed_event(), b"event".to_vec());
    assert_eq!(seed_collection_mint(), b"collection_mint".to_vec());
    assert_eq!(seed_collection_token_account(), b"collection_token_account".to_vec());
    assert_eq!(seed_token_mint(), b"token_mint".to_vec());
    assert_eq!(seed_digital_access(), b"digital_access".to_vec());
    assert_eq!(seed_metadata(), b"metadata".to_vec());
    assert_eq!(seed_edition(), b"edition".to_vec());
    assert_eq!(ANCHOR_DISCRIMINATOR, 8);
}

#[test]
fn account_spaces() {
    // 32 + 32 + 8 + 1 + 1
    assert_eq!(CONFIG_INIT_SPACE, 74);
    // 32 + 32 + 8 + 1 + 8 + 8 + (4 + 24) + (4 + 80) + 1
    assert_eq!(EVENT_INIT_SPACE, 202);
    // 32 + 1 + 8 + 8 + 8 + (4 + 32) + (4 + 8) + (4 + 240) + (4 + 160) + 1
    assert_eq!(DIGITAL_ACCESS_INIT_SPACE, 514);
}

#[test]
fn error_codes_and_messages() {
    assert_eq!(DappError::InvalidAuthority.code(), 6000);
    assert_eq!(DappError::InvalidCreator.code(), 6001);
    assert_eq!(DappError::MaxSupplyReached.code(), 6002);
    assert_eq!(DappError::InvalidAuthority.message(), "The signer authority is invalid");
    assert_eq!(DappError::InvalidCreator.message(), "The signer creator is invalid");
    assert_eq!(DappError::MaxSupplyReached.message(), "The digital access has reached its max supply");
    assert_eq!(ProgramError::Custom(DappError::InvalidCreator).code(), Some(6001));
    assert_eq!(ProgramError::ConstraintHasOne.code(), Some(2001));
    assert_eq!(ProgramError::ConstraintRaw.code(), Some(2003));
    assert_eq!(ProgramError::ConstraintSeeds.code(), Some(2006));
    assert_eq!(ProgramError::ConstraintAddress.code(), Some(2012));
    assert_eq!(ProgramError::AccountDidNotSerialize.code(), Some(3004));
    assert_eq!(ProgramError::InvalidProgramId.code(), Some(3008));
    assert_eq!(ProgramError::AccountNotAssociatedTokenAccount.code(), Some(3014));
    assert_eq!(ProgramError::AccountSysvarMismatch.code(), Some(3015));
    assert_eq!(ProgramError::BumpNotFound.code(), None);
}

#[test]
fn pubkey_equality_is_bytewise() {
    let a = Pubkey([7u8; 32]);
    let mut bytes = [7u8; 32];
    assert!(a.same_as(&Pubkey(bytes)));
    bytes[31] = 8;
    assert!(!a.same_as(&Pubkey(bytes)));
    assert_ne!(a, Pubkey(bytes));
    assert_eq!(a.to_seed(), vec![7u8; 32]);
}

#[test]
fn token_names_carry_the_ticket_number() {
    assert_eq!(token_name(&b"Concert".to_vec(), 0), b"Concert #0".to_vec());
    assert_eq!(token_name(&b"Concert".to_vec(), 42), b"Concert #42".to_vec());
    assert_eq!(token_name(&b"VIP".to_vec(), 1000), b"VIP #1000".to_vec());
    assert_eq!(token_name(&Vec::new(), u64::MAX), b" #18446744073709551615".to_vec());
    assert_eq!(token_name(&"Café".as_bytes().to_vec(), 7), "Café #7".as_bytes().to_vec());
}

#[test]
fn ticket_names_differ_between_numbers() {
    let name = b"Show".to_vec();
    let names: Vec<Vec<u8>> = (0..200u64).map(|n| token_name(&name, n)).collect();
    for i in 0..names.len() {
        for j in 0..i {
            assert_ne!(names[i], names[j]);
        }
    }
}

#[test]
fn seed_lists() {
    assert_eq!(event_seeds(5), vec![b"event".to_vec(), 5u64.to_le_bytes().to_vec()]);
    let c = Pubkey([3u8; 32]);
    assert_eq!(
        token_mint_seeds(&c, 258),
        vec![b"token_mint".to_vec(), vec![3u8; 32], 258u64.to_le_bytes().to_vec()]
    );
    assert_eq!(digital_access_seeds(&c, 9), vec![b"digital_access".to_vec(), vec![3u8; 32], vec![9u8]]);
    let mp = Pubkey([4u8; 32]);
    assert_eq!(metadata_seeds(&mp, &c), vec![b"metadata".to_vec(), vec![4u8; 32], vec![3u8; 32]]);
    assert_eq!(
        edition_seeds(&mp, &c),
        vec![b"metadata".to_vec(), vec![4u8; 32], vec![3u8; 32], b"edition".to_vec()]
    );
    assert_eq!(
        collection_signer_seeds(1, 254),
        vec![b"collection_mint".to_vec(), 1u64.to_le_bytes().to_vec(), vec![254u8]]
    );
}

#[test]
fn event_numbers_give_distinct_seeds() {
    for a in 0..50u64 {
        for b in 0..a {
            assert_ne!(event_seeds(a), event_seeds(b));
        }
    }
    assert_ne!(event_seeds(u64::MAX), event_seeds(u64::MAX - 1));
}

#[test]
fn found_address_is_checked_against_the_account() {
    let program = Pubkey([9u8; 32]);
    let seeds = event_seeds(3);
    let (key, bump) = pda(&[b"event", &3u64.to_le_bytes()], &program);
    assert_eq!(check_found(&key, &seeds, &program), Ok(bump));
    assert_eq!(check_found(&Pubkey([1u8; 32]), &seeds, &program), Err(ProgramError::ConstraintSeeds));
    // the bump found re-derives the address
    assert_eq!(check_bump(&key, &seeds, bump, &program), None);
    assert_eq!(check_bump(&Pubkey([1u8; 32]), &seeds, bump, &program), Some(ProgramError::ConstraintSeeds));
}

#[test]
fn stored_bump_must_derive_the_account() {
    let program = Pubkey([9u8; 32]);
    let seeds = event_seeds(3);
    let (key, bump) = pda(&[b"event", &3u64.to_le_bytes()], &program);
    // a different bump derives another address, or none at all
    let other = bump.wrapping_sub(1);
    assert_eq!(check_bump(&key, &seeds, other, &program), Some(ProgramError::ConstraintSeeds));
}

#[test]
fn event_fits_its_space() {
    let mut e = Event {
        creator: Pubkey([1u8; 32]),
        collection_mint_account: Pubkey([2u8; 32]),
        current_nft_count: 0,
        current_digital_access_count: 0,
        date: 0,
        ticket_price: 0,
        name: vec![b'a'; 24],
        description: vec![b'b'; 80],
        bump: 255,
    };
    assert!(e.fits());
    // a longer name fits as long as the texts together stay within bounds
    e.name = vec![b'a'; 30];
    e.description = vec![b'b'; 74];
    assert!(e.fits());
    e.description.push(b'c');
    assert!(!e.fits());
}

#[test]
fn program_ids_are_the_sdks() {
    assert_eq!(token_id().0, anchor_spl::token::ID.to_bytes());
    assert_eq!(token_2022_id().0, anchor_spl::token_2022::ID.to_bytes());
    assert_eq!(metadata_id().0, anchor_spl::metadata::ID.to_bytes());
    assert_eq!(associated_token_id().0, anchor_spl::associated_token::ID.to_bytes());
    assert_eq!(system_id().0, anchor_lang::system_program::ID.to_bytes());
    assert_eq!(rent_sysvar_id().0, anchor_lang::solana_program::sysvar::rent::ID.to_bytes());
}

#[test]
fn program_checks() {
    assert_eq!(check_program(&system_id(), &system_id()), None);
    assert_eq!(check_program(&token_id(), &system_id()), Some(ProgramError::InvalidProgramId));
    assert_eq!(check_token_program(&token_id()), None);
    assert_eq!(check_token_program(&token_2022_id()), None);
    assert_eq!(check_token_program(&system_id()), Some(ProgramError::InvalidProgramId));
    assert_eq!(check_rent_sysvar(&rent_sysvar_id()), None);
    assert_eq!(check_rent_sysvar(&system_id()), Some(ProgramError::AccountSysvarMismatch));
}

#[test]
fn associated_token_account_is_the_sdks() {
    let wallet = Pubkey([5u8; 32]);
    let mint = Pubkey([6u8; 32]);
    for tp in [token_id(), token_2022_id()] {
        let ata = anchor_spl::associated_token::get_associated_token_address_with_program_id(&sdk(&wallet), &sdk(&mint), &sdk(&tp));
        let ata = Pubkey(ata.to_bytes());
        assert_eq!(check_associated_token_account(&ata, &wallet, &mint, &tp), None);
        assert_eq!(
            check_associated_token_account(&ata, &Pubkey([7u8; 32]), &mint, &tp),
            Some(ProgramError::AccountNotAssociatedTokenAccount)
        );
    }
    assert_eq!(associated_token_seeds(&wallet, &mint, &token_id()), vec![vec![5u8; 32], token_id().0.to_vec(), vec![6u8; 32]]);
}
