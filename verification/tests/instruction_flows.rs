use boltick::boltick::{
    add_digital_access, buy_token, initialize_config, initialize_event, mint_token, update_token_metadata, write_back,
};
use boltick::contracts;
use boltick::cpi::{Collection, CollectionDetails, CpiInstruction, Creator, MetadataAccount, UseMethod, Uses};
use boltick::instructions::add_digital_access::AddDigitalAccess;
use boltick::instructions::buy_token::BuyToken;
use boltick::instructions::initialize_config::InitializeConfig;
use boltick::instructions::initialize_event::InitializeEvent;
use boltick::instructions::mint_token::MintToken;
use boltick::instructions::update_token_metadata::UpdateTokenMetadata;
use boltick::{Config, DappError, Event, ProgramError, Pubkey};

const PROGRAM: Pubkey = Pubkey([11u8; 32]);
const ADMIN: Pubkey = Pubkey([21u8; 32]);
const CREATOR: Pubkey = Pubkey([22u8; 32]);
const BUYER: Pubkey = Pubkey([23u8; 32]);
const STRANGER: Pubkey = Pubkey([24u8; 32]);

fn metadata_program() -> Pubkey {
    Pubkey(anchor_spl::metadata::ID.to_bytes())
}

fn token_program() -> Pubkey {
    Pubkey(anchor_spl::token::ID.to_bytes())
}

fn token_2022_program() -> Pubkey {
    Pubkey(anchor_spl::token_2022::ID.to_bytes())
}

fn system_program() -> Pubkey {
    Pubkey(anchor_lang::system_program::ID.to_bytes())
}

fn rent() -> Pubkey {
    Pubkey(anchor_lang::solana_program::sysvar::rent::ID.to_bytes())
}

fn ata_program() -> Pubkey {
    Pubkey(anchor_spl::associated_token::ID.to_bytes())
}

fn associated(wallet: &Pubkey, mint: &Pubkey, token_program: &Pubkey) -> Pubkey {
    let k = anchor_spl::associated_token::get_associated_token_address_with_program_id(
        &anchor_lang::prelude::Pubkey::new_from_array(wallet.0),
        &anchor_lang::prelude::Pubkey::new_from_array(mint.0),
        &anchor_lang::prelude::Pubkey::new_from_array(token_program.0),
    );
    Pubkey(k.to_bytes())
}

fn pda(seeds: &[&[u8]], program: &Pubkey) -> (Pubkey, u8) {
    let (k, b) = anchor_lang::prelude::Pubkey::find_program_address(
        seeds,
        &anchor_lang::prelude::Pubkey::new_from_array(program.0),
    );
    (Pubkey(k.to_bytes()), b)
}

fn config_accounts() -> InitializeConfig {
    InitializeConfig {
        authority: ADMIN,
        authority_is_signer: true,
        authority_is_writable: true,
        config_is_writable: true,
        treasury_is_writable: true,
        config: pda(&[b"config"], &PROGRAM).0,
        treasury: pda(&[b"treasury"], &PROGRAM).0,
        system_program: system_program(),
    }
}

fn fresh_config() -> Config {
    initialize_config(&PROGRAM, &config_accounts()).unwrap()
}

fn collection_mint(n: u64) -> Pubkey {
    pda(&[b"collection_mint", &n.to_le_bytes()], &PROGRAM).0
}

fn event_accounts(n: u64) -> InitializeEvent {
    let cm = collection_mint(n);
    InitializeEvent {
        creator: CREATOR,
        creator_is_signer: true,
        creator_is_writable: true,
        event_is_writable: true,
        config_is_writable: true,
        collection_mint_is_writable: true,
        collection_token_account_is_writable: true,
        metadata_account_is_writable: true,
        edition_account_is_writable: true,
        event: pda(&[b"event", &n.to_le_bytes()], &PROGRAM).0,
        config: pda(&[b"config"], &PROGRAM).0,
        collection_mint: cm,
        collection_token_account: pda(&[b"collection_token_account", &n.to_le_bytes()], &PROGRAM).0,
        metadata_account: pda(&[b"metadata", &metadata_program().0, &cm.0], &metadata_program()).0,
        edition_account: pda(&[b"metadata", &metadata_program().0, &cm.0, b"edition"], &metadata_program()).0,
        token_program: token_program(),
        token_metadata_program: metadata_program(),
        system_program: system_program(),
        rent: rent(),
    }
}

fn new_event(config: &mut Config) -> Event {
    let n = config.event_count;
    let (event, _calls) = initialize_event(
        &PROGRAM,
        &event_accounts(n),
        config,
        1_700_000_000,
        b"Concert".to_vec(),
        b"CNC".to_vec(),
        b"https://example.com/c.json".to_vec(),
        b"An evening of music".to_vec(),
    )
    .unwrap();
    event
}

fn mint_accounts(event_id: u64, ticket: u64) -> MintToken {
    let cm = collection_mint(event_id);
    let tm = pda(&[b"token_mint", &cm.0, &ticket.to_le_bytes()], &PROGRAM).0;
    MintToken {
        authority: ADMIN,
        authority_is_signer: true,
        authority_is_writable: true,
        destination_is_writable: true,
        event_is_writable: true,
        collection_mint_is_writable: true,
        token_mint_is_writable: true,
        destination_token_account_is_writable: true,
        metadata_account_is_writable: true,
        edition_account_is_writable: true,
        collection_metadata_account_is_writable: true,
        collection_master_edition_is_writable: true,
        destination: BUYER,
        config: pda(&[b"config"], &PROGRAM).0,
        event: pda(&[b"event", &event_id.to_le_bytes()], &PROGRAM).0,
        collection_mint: cm,
        token_mint: tm,
        destination_token_account: associated(&BUYER, &tm, &token_program()),
        metadata_account: pda(&[b"metadata", &metadata_program().0, &tm.0], &metadata_program()).0,
        edition_account: pda(&[b"metadata", &metadata_program().0, &tm.0, b"edition"], &metadata_program()).0,
        collection_metadata_account: pda(&[b"metadata", &metadata_program().0, &cm.0], &metadata_program()).0,
        collection_master_edition: pda(&[b"metadata", &metadata_program().0, &cm.0, b"edition"], &metadata_program()).0,
        token_program: token_program(),
        token_metadata_program: metadata_program(),
        associated_token_program: ata_program(),
        system_program: system_program(),
        rent: rent(),
    }
}

fn buy_accounts(event_id: u64, ticket: u64) -> BuyToken {
    let m = mint_accounts(event_id, ticket);
    BuyToken {
        buyer: BUYER,
        buyer_is_signer: true,
        buyer_is_writable: true,
        event_is_writable: true,
        event_creator_is_writable: true,
        collection_mint_is_writable: true,
        token_mint_is_writable: true,
        buyer_token_account_is_writable: true,
        metadata_account_is_writable: true,
        edition_account_is_writable: true,
        collection_metadata_account_is_writable: true,
        collection_master_edition_is_writable: true,
        config: m.config,
        event: m.event,
        event_creator: CREATOR,
        token_mint: m.token_mint,
        buyer_token_account: associated(&BUYER, &m.token_mint, &token_program()),
        collection_mint: m.collection_mint,
        metadata_account: m.metadata_account,
        edition_account: m.edition_account,
        collection_metadata_account: m.collection_metadata_account,
        collection_master_edition: m.collection_master_edition,
        token_program: token_program(),
        token_metadata_program: metadata_program(),
        associated_token_program: ata_program(),
        system_program: system_program(),
        rent: rent(),
    }
}

#[test]
fn initialize_config_makes_the_signer_authority() {
    let config = fresh_config();
    assert_eq!(config.authority, ADMIN);
    assert_eq!(config.treasury, pda(&[b"treasury"], &PROGRAM).0);
    assert_eq!(config.event_count, 0);
    assert_eq!(config.bump, pda(&[b"config"], &PROGRAM).1);
    assert_eq!(config.treasury_bump, pda(&[b"treasury"], &PROGRAM).1);
}

#[test]
fn initialize_config_refuses_a_config_elsewhere() {
    let mut a = config_accounts();
    a.config = Pubkey([99u8; 32]);
    assert_eq!(initialize_config(&PROGRAM, &a).unwrap_err(), ProgramError::ConstraintSeeds);
    let mut a = config_accounts();
    a.treasury = Pubkey([99u8; 32]);
    assert_eq!(initialize_config(&PROGRAM, &a).unwrap_err(), ProgramError::ConstraintSeeds);
}

#[test]
fn initialize_event_records_the_event_and_counts_it() {
    let mut config = fresh_config();
    let accounts = event_accounts(0);
    let (event, calls) = initialize_event(
        &PROGRAM,
        &accounts,
        &mut config,
        1_700_000_000,
        b"Concert".to_vec(),
        b"CNC".to_vec(),
        b"uri".to_vec(),
        b"Music".to_vec(),
    )
    .unwrap();
    assert_eq!(config.event_count, 1);
    assert_eq!(event.creator, CREATOR);
    assert_eq!(event.collection_mint_account, accounts.collection_mint);
    assert_eq!(event.current_nft_count, 0);
    assert_eq!(event.current_digital_access_count, 0);
    assert_eq!(event.date, 1_700_000_000);
    assert_eq!(event.name, b"Concert".to_vec());
    assert_eq!(event.description, b"Music".to_vec());
    assert_eq!(event.bump, pda(&[b"event", &0u64.to_le_bytes()], &PROGRAM).1);

    let cm_bump = pda(&[b"collection_mint", &0u64.to_le_bytes()], &PROGRAM).1;
    let seeds = vec![b"collection_mint".to_vec(), 0u64.to_le_bytes().to_vec(), vec![cm_bump]];
    assert_eq!(calls.len(), 4);
    for c in &calls {
        assert_eq!(c.signer_seeds, seeds);
    }
    assert_eq!(calls[0].program, token_program());
    match &calls[0].instruction {
        CpiInstruction::MintTo { mint, to, authority, amount } => {
            assert_eq!(*mint, accounts.collection_mint);
            assert_eq!(*to, accounts.collection_token_account);
            assert_eq!(*authority, accounts.collection_mint);
            assert_eq!(*amount, 1);
        }
        other => panic!("unexpected {:?}", other),
    }
    match &calls[1].instruction {
        CpiInstruction::CreateMetadataAccountsV3 { data, is_mutable, collection_details, update_authority, .. } => {
            assert_eq!(data.name, b"Concert".to_vec());
            assert_eq!(data.symbol, b"CNC".to_vec());
            assert_eq!(data.uri, b"uri".to_vec());
            assert_eq!(data.seller_fee_basis_points, 0);
            let creators = data.creators.as_ref().unwrap();
            assert_eq!(creators.len(), 1);
            assert_eq!(creators[0].address, accounts.collection_mint);
            assert!(creators[0].verified);
            assert_eq!(creators[0].share, 100);
            assert!(data.collection.is_none());
            assert!(!*is_mutable);
            assert_eq!(*update_authority, accounts.collection_mint);
            assert!(matches!(collection_details, Some(CollectionDetails::V1 { size: 0 })));
        }
        other => panic!("unexpected {:?}", other),
    }
    match &calls[2].instruction {
        CpiInstruction::CreateMasterEditionV3 { max_supply, mint, .. } => {
            assert_eq!(*max_supply, Some(0));
            assert_eq!(*mint, accounts.collection_mint);
        }
        other => panic!("unexpected {:?}", other),
    }
    match &calls[3].instruction {
        CpiInstruction::SignMetadata { creator, metadata } => {
            assert_eq!(*creator, accounts.collection_mint);
            assert_eq!(*metadata, accounts.metadata_account);
        }
        other => panic!("unexpected {:?}", other),
    }
}

#[test]
fn events_are_numbered_in_order() {
    let mut config = fresh_config();
    let _ = new_event(&mut config);
    let _ = new_event(&mut config);
    assert_eq!(config.event_count, 2);
    // the next event must sit at the address of number 2, not of an earlier one
    let mut stale = config;
    let r = initialize_event(
        &PROGRAM,
        &event_accounts(1),
        &mut stale,
        0,
        b"x".to_vec(),
        b"x".to_vec(),
        b"x".to_vec(),
        b"x".to_vec(),
    );
    assert_eq!(r.unwrap_err(), ProgramError::ConstraintSeeds);
    assert_eq!(stale.event_count, 2);
}

#[test]
fn event_too_long_is_refused_at_write_back() {
    let mut config = fresh_config();
    // the calls are made first; the event is refused when it is written back
    let (event, calls) = initialize_event(
        &PROGRAM,
        &event_accounts(0),
        &mut config,
        0,
        vec![b'n'; 50],
        b"S".to_vec(),
        b"u".to_vec(),
        vec![b'd'; 55],
    )
    .unwrap();
    assert_eq!(calls.len(), 4);
    assert!(!event.fits());
    assert_eq!(write_back(event.fits()), Err(ProgramError::AccountDidNotSerialize));
    // at the limit it fits
    let mut config = fresh_config();
    let (event, _) = initialize_event(
        &PROGRAM,
        &event_accounts(0),
        &mut config,
        0,
        vec![b'n'; 50],
        b"S".to_vec(),
        b"u".to_vec(),
        vec![b'd'; 54],
    )
    .unwrap();
    assert_eq!(write_back(event.fits()), Ok(()));
    assert_eq!(config.event_count, 1);
}

#[test]
fn initialize_event_checks_the_config_bump() {
    let mut config = fresh_config();
    config.bump = config.bump.wrapping_sub(1);
    let before = config;
    let r = initialize_event(
        &PROGRAM,
        &event_accounts(0),
        &mut config,
        0,
        b"a".to_vec(),
        b"b".to_vec(),
        b"c".to_vec(),
        b"d".to_vec(),
    );
    assert_eq!(r.unwrap_err(), ProgramError::ConstraintSeeds);
    assert_eq!(config.event_count, before.event_count);
}

fn access_accounts(event_id: u64, tier: u8, signer: Pubkey) -> AddDigitalAccess {
    let event = pda(&[b"event", &event_id.to_le_bytes()], &PROGRAM).0;
    AddDigitalAccess {
        creator: signer,
        creator_is_signer: true,
        creator_is_writable: true,
        event_is_writable: true,
        digital_access_is_writable: true,
        event,
        digital_access: pda(&[b"digital_access", &event.0, &[tier]], &PROGRAM).0,
        system_program: system_program(),
    }
}

#[test]
fn creator_adds_numbered_tiers() {
    let mut config = fresh_config();
    let mut event = new_event(&mut config);
    let first = add_digital_access(
        &PROGRAM,
        &access_accounts(0, 0, CREATOR),
        &mut event,
        0,
        50,
        100,
        b"General".to_vec(),
        b"GEN".to_vec(),
        b"Standing".to_vec(),
        b"uri0".to_vec(),
    )
    .unwrap();
    assert_eq!(first.id, 0);
    assert_eq!(first.event, access_accounts(0, 0, CREATOR).event);
    assert_eq!(first.price, 50);
    assert_eq!(first.max_supply, 100);
    assert_eq!(first.current_minted, 0);
    assert_eq!(first.name, b"General".to_vec());
    assert_eq!(first.symbol, b"GEN".to_vec());
    assert_eq!(first.description, b"Standing".to_vec());
    assert_eq!(first.uri, b"uri0".to_vec());
    assert_eq!(event.current_digital_access_count, 1);
    let second = add_digital_access(
        &PROGRAM,
        &access_accounts(0, 1, CREATOR),
        &mut event,
        0,
        90,
        10,
        b"VIP".to_vec(),
        b"VIP".to_vec(),
        b"Front row".to_vec(),
        b"uri1".to_vec(),
    )
    .unwrap();
    assert_eq!(second.id, 1);
    assert_eq!(event.current_digital_access_count, 2);
    assert_ne!(access_accounts(0, 0, CREATOR).digital_access, access_accounts(0, 1, CREATOR).digital_access);
}

#[test]
fn only_the_creator_adds_tiers() {
    let mut config = fresh_config();
    let mut event = new_event(&mut config);
    let r = add_digital_access(
        &PROGRAM,
        &access_accounts(0, 0, STRANGER),
        &mut event,
        0,
        1,
        1,
        b"n".to_vec(),
        b"s".to_vec(),
        b"d".to_vec(),
        b"u".to_vec(),
    );
    let e = r.unwrap_err();
    assert_eq!(e, ProgramError::Custom(DappError::InvalidCreator));
    assert_eq!(e.code(), Some(6001));
    assert_eq!(event.current_digital_access_count, 0);
}

#[test]
fn tier_texts_must_fit() {
    let mut config = fresh_config();
    let mut event = new_event(&mut config);
    let r = add_digital_access(
        &PROGRAM,
        &access_accounts(0, 0, CREATOR),
        &mut event,
        0,
        1,
        1,
        vec![b'n'; 200],
        vec![b's'; 40],
        vec![b'd'; 100],
        vec![b'u'; 101],
    );
    assert_eq!(r.unwrap_err(), ProgramError::AccountDidNotSerialize);
    assert_eq!(event.current_digital_access_count, 0);
    let r = add_digital_access(
        &PROGRAM,
        &access_accounts(0, 0, CREATOR),
        &mut event,
        0,
        1,
        1,
        vec![b'n'; 200],
        vec![b's'; 40],
        vec![b'd'; 100],
        vec![b'u'; 100],
    );
    assert!(r.is_ok());
}

#[test]
fn tier_of_a_wrong_event_number_is_refused() {
    let mut config = fresh_config();
    let mut event = new_event(&mut config);
    let r = add_digital_access(
        &PROGRAM,
        &access_accounts(0, 0, CREATOR),
        &mut event,
        7,
        1,
        1,
        b"n".to_vec(),
        b"s".to_vec(),
        b"d".to_vec(),
        b"u".to_vec(),
    );
    assert_eq!(r.unwrap_err(), ProgramError::ConstraintSeeds);
}

#[test]
fn authority_mints_numbered_tickets() {
    let mut config = fresh_config();
    let mut event = new_event(&mut config);
    for ticket in 0..3u64 {
        let accounts = mint_accounts(0, ticket);
        let calls = mint_token(
            &PROGRAM,
            &accounts,
            &config,
            &mut event,
            0,
            b"Concert".to_vec(),
            b"CNC".to_vec(),
            b"uri".to_vec(),
        )
        .unwrap();
        assert_eq!(event.current_nft_count, ticket + 1);
        assert_eq!(calls.len(), 4);
        match &calls[0].instruction {
            CpiInstruction::MintTo { mint, to, amount, .. } => {
                assert_eq!(*mint, accounts.token_mint);
                assert_eq!(*to, accounts.destination_token_account);
                assert_eq!(*amount, 1);
            }
            other => panic!("unexpected {:?}", other),
        }
        match &calls[1].instruction {
            CpiInstruction::CreateMetadataAccountsV3 { data, is_mutable, payer, .. } => {
                assert_eq!(data.name, format!("Concert #{}", ticket).into_bytes());
                assert!(*is_mutable);
                assert_eq!(*payer, ADMIN);
                let c = data.collection.unwrap();
                assert_eq!(c.key, accounts.collection_mint);
                assert!(!c.verified);
            }
            other => panic!("unexpected {:?}", other),
        }
        match &calls[3].instruction {
            CpiInstruction::SetAndVerifySizedCollectionItem { collection_mint, collection_authority_record, .. } => {
                assert_eq!(*collection_mint, accounts.collection_mint);
                assert!(collection_authority_record.is_none());
            }
            other => panic!("unexpected {:?}", other),
        }
    }
}

#[test]
fn only_the_authority_mints() {
    let mut config = fresh_config();
    let mut event = new_event(&mut config);
    let mut accounts = mint_accounts(0, 0);
    accounts.authority = STRANGER;
    let r = mint_token(&PROGRAM, &accounts, &config, &mut event, 0, b"a".to_vec(), b"b".to_vec(), b"c".to_vec());
    assert_eq!(r.unwrap_err(), ProgramError::ConstraintHasOne);
    assert_eq!(event.current_nft_count, 0);
}

#[test]
fn mint_requires_the_events_collection() {
    let mut config = fresh_config();
    let mut event = new_event(&mut config);
    event.collection_mint_account = Pubkey([77u8; 32]);
    let r = mint_token(&PROGRAM, &mint_accounts(0, 0), &config, &mut event, 0, b"a".to_vec(), b"b".to_vec(), b"c".to_vec());
    assert_eq!(r.unwrap_err(), ProgramError::ConstraintRaw);
    assert_eq!(event.current_nft_count, 0);
}

#[test]
fn mint_refuses_a_reused_ticket_mint() {
    let mut config = fresh_config();
    let mut event = new_event(&mut config);
    mint_token(&PROGRAM, &mint_accounts(0, 0), &config, &mut event, 0, b"a".to_vec(), b"b".to_vec(), b"c".to_vec())
        .unwrap();
    // ticket 0's mint no longer matches the event's counter
    let r = mint_token(&PROGRAM, &mint_accounts(0, 0), &config, &mut event, 0, b"a".to_vec(), b"b".to_vec(), b"c".to_vec());
    assert_eq!(r.unwrap_err(), ProgramError::ConstraintSeeds);
    assert_eq!(event.current_nft_count, 1);
}

#[test]
fn buyer_pays_the_creator() {
    let mut config = fresh_config();
    let mut event = new_event(&mut config);
    event.ticket_price = 1_500_000;
    let accounts = buy_accounts(0, 0);
    let calls = buy_token(&PROGRAM, &accounts, &config, &mut event, 0, b"Concert".to_vec(), b"CNC".to_vec(), b"u".to_vec())
        .unwrap();
    assert_eq!(calls.len(), 5);
    assert_eq!(calls[0].program, system_program());
    assert!(calls[0].signer_seeds.is_empty());
    match &calls[0].instruction {
        CpiInstruction::Transfer { from, to, lamports } => {
            assert_eq!(*from, BUYER);
            assert_eq!(*to, CREATOR);
            assert_eq!(*lamports, 1_500_000);
        }
        other => panic!("unexpected {:?}", other),
    }
    match &calls[2].instruction {
        CpiInstruction::CreateMetadataAccountsV3 { data, payer, .. } => {
            assert_eq!(data.name, b"Concert".to_vec());
            assert_eq!(*payer, BUYER);
        }
        other => panic!("unexpected {:?}", other),
    }
    assert_eq!(event.current_nft_count, 1);
}

#[test]
fn price_goes_only_to_the_creator() {
    let mut config = fresh_config();
    let mut event = new_event(&mut config);
    let mut accounts = buy_accounts(0, 0);
    accounts.event_creator = STRANGER;
    let r = buy_token(&PROGRAM, &accounts, &config, &mut event, 0, b"a".to_vec(), b"b".to_vec(), b"c".to_vec());
    assert_eq!(r.unwrap_err(), ProgramError::ConstraintAddress);
    assert_eq!(event.current_nft_count, 0);
}

fn update_accounts(event_id: u64, ticket: u64, signer: Pubkey) -> UpdateTokenMetadata {
    let m = mint_accounts(event_id, ticket);
    UpdateTokenMetadata {
        authority: signer,
        authority_is_signer: true,
        authority_is_writable: true,
        token_mint_is_writable: true,
        collection_mint_is_writable: true,
        metadata_account_is_writable: true,
        edition_account_is_writable: true,
        config: m.config,
        event: m.event,
        token_mint: m.token_mint,
        collection_mint: m.collection_mint,
        metadata_account: m.metadata_account,
        edition_account: m.edition_account,
        token_metadata_program: metadata_program(),
    }
}

fn stored_metadata() -> MetadataAccount {
    MetadataAccount {
        name: b"Concert #0".to_vec(),
        symbol: b"CNC".to_vec(),
        uri: b"old".to_vec(),
        seller_fee_basis_points: 250,
        creators: Some(vec![Creator { address: Pubkey([5u8; 32]), verified: true, share: 100 }]),
        collection: Some(Collection { verified: true, key: collection_mint(0) }),
        uses: Some(Uses { use_method: UseMethod::Single, remaining: 1, total: 1 }),
    }
}

#[test]
fn update_replaces_only_the_uri() {
    let mut config = fresh_config();
    let event = new_event(&mut config);
    let accounts = update_accounts(0, 0, ADMIN);
    let call = update_token_metadata(&PROGRAM, &accounts, &config, &event, &stored_metadata(), 0, 0, b"new".to_vec())
        .unwrap();
    assert_eq!(call.program, metadata_program());
    let cm_bump = pda(&[b"collection_mint", &0u64.to_le_bytes()], &PROGRAM).1;
    assert_eq!(call.signer_seeds, vec![b"collection_mint".to_vec(), 0u64.to_le_bytes().to_vec(), vec![cm_bump]]);
    match call.instruction {
        CpiInstruction::UpdateMetadataAccountsV2 {
            metadata,
            update_authority,
            new_update_authority,
            data,
            primary_sale_happened,
            is_mutable,
        } => {
            assert_eq!(metadata, accounts.metadata_account);
            assert_eq!(update_authority, accounts.collection_mint);
            assert!(new_update_authority.is_none());
            assert!(primary_sale_happened.is_none());
            assert_eq!(is_mutable, Some(true));
            let d = data.unwrap();
            assert_eq!(d.uri, b"new".to_vec());
            assert_eq!(d.name, b"Concert #0".to_vec());
            assert_eq!(d.symbol, b"CNC".to_vec());
            assert_eq!(d.seller_fee_basis_points, 250);
            assert_eq!(d.creators.unwrap()[0].address, Pubkey([5u8; 32]));
            assert_eq!(d.collection.unwrap().key, collection_mint(0));
            assert_eq!(d.uses.unwrap().remaining, 1);
        }
        other => panic!("unexpected {:?}", other),
    }
}

#[test]
fn only_the_authority_updates_metadata() {
    let mut config = fresh_config();
    let event = new_event(&mut config);
    let r = update_token_metadata(
        &PROGRAM,
        &update_accounts(0, 0, STRANGER),
        &config,
        &event,
        &stored_metadata(),
        0,
        0,
        b"new".to_vec(),
    );
    let e = r.unwrap_err();
    assert_eq!(e, ProgramError::Custom(DappError::InvalidAuthority));
    assert_eq!(e.code(), Some(6000));
}

#[test]
fn update_names_the_ticket_by_number() {
    let mut config = fresh_config();
    let event = new_event(&mut config);
    // accounts of ticket 1 with the number of ticket 0
    let r = update_token_metadata(
        &PROGRAM,
        &update_accounts(0, 1, ADMIN),
        &config,
        &event,
        &stored_metadata(),
        0,
        0,
        b"new".to_vec(),
    );
    assert_eq!(r.unwrap_err(), ProgramError::ConstraintSeeds);
}

#[test]
fn earlier_deployment() {
    assert!(contracts::initialize_config(&contracts::InitializeConfig {
        authority: ADMIN,
        authority_is_signer: true,
        authority_is_writable: true,
    }).is_ok());
    assert_eq!(
        contracts::initialize_config(&contracts::InitializeConfig {
            authority: ADMIN,
            authority_is_signer: false,
            authority_is_writable: true,
        }),
        Err(ProgramError::AccountNotSigner)
    );
    let mut config = fresh_config();
    let accounts = event_accounts(0);
    let bumps = accounts.try_accounts(&PROGRAM, &config).unwrap();
    let (event, calls) = contracts::process_initialize_event(
        &accounts,
        &bumps,
        &mut config,
        42,
        b"Old".to_vec(),
        b"O".to_vec(),
        b"u".to_vec(),
        b"desc".to_vec(),
    );
    assert_eq!(event.creator, CREATOR);
    assert_eq!(event.collection_mint_account, accounts.collection_mint);
    assert_eq!(event.date, 42);
    assert_eq!(event.name, b"Old".to_vec());
    assert_eq!(event.description, b"desc".to_vec());
    assert_eq!(calls.len(), 4);
    assert_eq!(config.event_count, 1);
}

#[test]
fn signers_must_sign() {
    let mut a = config_accounts();
    a.authority_is_signer = false;
    let e = initialize_config(&PROGRAM, &a).unwrap_err();
    assert_eq!(e, ProgramError::AccountNotSigner);
    assert_eq!(e.code(), Some(3010));

    let mut config = fresh_config();
    let mut ea = event_accounts(0);
    ea.creator_is_signer = false;
    let r = initialize_event(&PROGRAM, &ea, &mut config, 0, b"a".to_vec(), b"b".to_vec(), b"c".to_vec(), b"d".to_vec());
    assert_eq!(r.unwrap_err(), ProgramError::AccountNotSigner);
    assert_eq!(config.event_count, 0);

    let mut event = new_event(&mut config);
    let mut aa = access_accounts(0, 0, CREATOR);
    aa.creator_is_signer = false;
    let r = add_digital_access(&PROGRAM, &aa, &mut event, 0, 1, 1, b"n".to_vec(), b"s".to_vec(), b"d".to_vec(), b"u".to_vec());
    assert_eq!(r.unwrap_err(), ProgramError::AccountNotSigner);

    // the authority's key without its signature does not mint
    let mut ma = mint_accounts(0, 0);
    ma.authority_is_signer = false;
    let r = mint_token(&PROGRAM, &ma, &config, &mut event, 0, b"a".to_vec(), b"b".to_vec(), b"c".to_vec());
    assert_eq!(r.unwrap_err(), ProgramError::AccountNotSigner);

    let mut ba = buy_accounts(0, 0);
    ba.buyer_is_signer = false;
    let r = buy_token(&PROGRAM, &ba, &config, &mut event, 0, b"a".to_vec(), b"b".to_vec(), b"c".to_vec());
    assert_eq!(r.unwrap_err(), ProgramError::AccountNotSigner);
    assert_eq!(event.current_nft_count, 0);

    let mut ua = update_accounts(0, 0, ADMIN);
    ua.authority_is_signer = false;
    let r = update_token_metadata(&PROGRAM, &ua, &config, &event, &stored_metadata(), 0, 0, b"new".to_vec());
    assert_eq!(r.unwrap_err(), ProgramError::AccountNotSigner);
}

#[test]
fn programs_and_rent_must_be_the_named_ones() {
    let mut config = fresh_config();
    let mut a = event_accounts(0);
    a.token_program = Pubkey([13u8; 32]);
    let r = initialize_event(&PROGRAM, &a, &mut config, 0, b"a".to_vec(), b"b".to_vec(), b"c".to_vec(), b"d".to_vec());
    let e = r.unwrap_err();
    assert_eq!(e, ProgramError::InvalidProgramId);
    assert_eq!(e.code(), Some(3008));
    assert_eq!(config.event_count, 0);

    let mut a = event_accounts(0);
    a.token_metadata_program = Pubkey([12u8; 32]);
    let r = initialize_event(&PROGRAM, &a, &mut config, 0, b"a".to_vec(), b"b".to_vec(), b"c".to_vec(), b"d".to_vec());
    assert_eq!(r.unwrap_err(), ProgramError::InvalidProgramId);

    let mut a = event_accounts(0);
    a.system_program = Pubkey([1u8; 32]);
    let r = initialize_event(&PROGRAM, &a, &mut config, 0, b"a".to_vec(), b"b".to_vec(), b"c".to_vec(), b"d".to_vec());
    assert_eq!(r.unwrap_err(), ProgramError::InvalidProgramId);

    let mut a = event_accounts(0);
    a.rent = Pubkey([14u8; 32]);
    let r = initialize_event(&PROGRAM, &a, &mut config, 0, b"a".to_vec(), b"b".to_vec(), b"c".to_vec(), b"d".to_vec());
    let e = r.unwrap_err();
    assert_eq!(e, ProgramError::AccountSysvarMismatch);
    assert_eq!(e.code(), Some(3015));
    assert_eq!(config.event_count, 0);

    let mut c = config_accounts();
    c.system_program = Pubkey([1u8; 32]);
    assert_eq!(initialize_config(&PROGRAM, &c).unwrap_err(), ProgramError::InvalidProgramId);

    let mut event = new_event(&mut config);
    let mut aa = access_accounts(0, 0, CREATOR);
    aa.system_program = Pubkey([1u8; 32]);
    let r = add_digital_access(&PROGRAM, &aa, &mut event, 0, 1, 1, b"n".to_vec(), b"s".to_vec(), b"d".to_vec(), b"u".to_vec());
    assert_eq!(r.unwrap_err(), ProgramError::InvalidProgramId);
    assert_eq!(event.current_digital_access_count, 0);

    let mut ma = mint_accounts(0, 0);
    ma.associated_token_program = Pubkey([15u8; 32]);
    let r = mint_token(&PROGRAM, &ma, &config, &mut event, 0, b"a".to_vec(), b"b".to_vec(), b"c".to_vec());
    assert_eq!(r.unwrap_err(), ProgramError::InvalidProgramId);

    let mut ba = buy_accounts(0, 0);
    ba.rent = Pubkey([14u8; 32]);
    let r = buy_token(&PROGRAM, &ba, &config, &mut event, 0, b"a".to_vec(), b"b".to_vec(), b"c".to_vec());
    assert_eq!(r.unwrap_err(), ProgramError::AccountSysvarMismatch);

    let mut ua = update_accounts(0, 0, ADMIN);
    ua.token_metadata_program = Pubkey([12u8; 32]);
    let r = update_token_metadata(&PROGRAM, &ua, &config, &event, &stored_metadata(), 0, 0, b"new".to_vec());
    assert_eq!(r.unwrap_err(), ProgramError::InvalidProgramId);
    assert_eq!(event.current_nft_count, 0);
}

#[test]
fn ticket_goes_to_the_associated_token_account() {
    let mut config = fresh_config();
    let mut event = new_event(&mut config);
    let mut ma = mint_accounts(0, 0);
    ma.destination_token_account = Pubkey([30u8; 32]);
    let r = mint_token(&PROGRAM, &ma, &config, &mut event, 0, b"a".to_vec(), b"b".to_vec(), b"c".to_vec());
    let e = r.unwrap_err();
    assert_eq!(e, ProgramError::AccountNotAssociatedTokenAccount);
    assert_eq!(e.code(), Some(3014));
    assert_eq!(event.current_nft_count, 0);

    // the buyer's account for this mint, but of another owner
    let mut ba = buy_accounts(0, 0);
    ba.buyer_token_account = associated(&STRANGER, &ba.token_mint, &token_program());
    let r = buy_token(&PROGRAM, &ba, &config, &mut event, 0, b"a".to_vec(), b"b".to_vec(), b"c".to_vec());
    assert_eq!(r.unwrap_err(), ProgramError::AccountNotAssociatedTokenAccount);
    assert_eq!(event.current_nft_count, 0);
}

#[test]
fn token_2022_tickets_use_their_own_associated_accounts() {
    let mut config = fresh_config();
    let mut event = new_event(&mut config);
    let mut ma = mint_accounts(0, 0);
    ma.token_program = token_2022_program();
    // derived under the classic token program: not the account for this mint
    let r = mint_token(&PROGRAM, &ma, &config, &mut event, 0, b"a".to_vec(), b"b".to_vec(), b"c".to_vec());
    assert_eq!(r.unwrap_err(), ProgramError::AccountNotAssociatedTokenAccount);
    ma.destination_token_account = associated(&BUYER, &ma.token_mint, &token_2022_program());
    let calls = mint_token(&PROGRAM, &ma, &config, &mut event, 0, b"a".to_vec(), b"b".to_vec(), b"c".to_vec()).unwrap();
    assert_eq!(calls[0].program, token_2022_program());
    assert_eq!(event.current_nft_count, 1);
}

#[test]
fn seventh_ticket_is_named_and_placed_by_its_number() {
    let mut config = fresh_config();
    let mut event = new_event(&mut config);
    event.current_nft_count = 7;
    let accounts = mint_accounts(0, 7);
    let calls = mint_token(
        &PROGRAM,
        &accounts,
        &config,
        &mut event,
        0,
        b"Gala".to_vec(),
        b"GAL".to_vec(),
        b"https://b.io/7.json".to_vec(),
    )
    .unwrap();
    let cm = collection_mint(0);
    assert_eq!(accounts.token_mint, pda(&[b"token_mint", &cm.0, &7u64.to_le_bytes()], &PROGRAM).0);
    match &calls[1].instruction {
        CpiInstruction::CreateMetadataAccountsV3 { data, mint, .. } => {
            assert_eq!(data.name, b"Gala #7".to_vec());
            assert_eq!(data.symbol, b"GAL".to_vec());
            assert_eq!(data.uri, b"https://b.io/7.json".to_vec());
            assert_eq!(data.seller_fee_basis_points, 0);
            assert_eq!(*mint, accounts.token_mint);
        }
        other => panic!("unexpected {:?}", other),
    }
    assert_eq!(event.current_nft_count, 8);
    // the mint of another number is refused
    let r = mint_token(&PROGRAM, &mint_accounts(0, 7), &config, &mut event, 0, b"a".to_vec(), b"b".to_vec(), b"c".to_vec());
    assert_eq!(r.unwrap_err(), ProgramError::ConstraintSeeds);
}

#[test]
fn successive_events_get_successive_numbers_and_addresses() {
    let mut config = fresh_config();
    let start = config;
    let mut events = Vec::new();
    for n in 0..4u64 {
        assert_eq!(config.event_count, n);
        let accounts = event_accounts(n);
        let (event, _) = initialize_event(
            &PROGRAM,
            &accounts,
            &mut config,
            0,
            b"e".to_vec(),
            b"E".to_vec(),
            b"u".to_vec(),
            b"d".to_vec(),
        )
        .unwrap();
        assert_eq!(event.bump, pda(&[b"event", &n.to_le_bytes()], &PROGRAM).1);
        assert_eq!(event.collection_mint_account, collection_mint(n));
        events.push((accounts.event, accounts.collection_mint));
    }
    assert_eq!(config.event_count, 4);
    assert_eq!(config.authority, start.authority);
    assert_eq!(config.treasury, start.treasury);
    assert_eq!(config.bump, start.bump);
    assert_eq!(config.treasury_bump, start.treasury_bump);
    for i in 0..events.len() {
        for j in 0..i {
            assert_ne!(events[i].0, events[j].0);
            assert_ne!(events[i].1, events[j].1);
        }
    }
}

#[test]
fn successive_tickets_use_distinct_mints() {
    let mut config = fresh_config();
    let mut event = new_event(&mut config);
    let tiers = event.current_digital_access_count;
    let creator = event.creator;
    let name = event.name.clone();
    let mut mints = Vec::new();
    for t in 0..3u64 {
        let accounts = mint_accounts(0, t);
        if t % 2 == 0 {
            mint_token(&PROGRAM, &accounts, &config, &mut event, 0, b"T".to_vec(), b"T".to_vec(), b"u".to_vec()).unwrap();
        } else {
            buy_token(&PROGRAM, &buy_accounts(0, t), &config, &mut event, 0, b"T".to_vec(), b"T".to_vec(), b"u".to_vec())
                .unwrap();
        }
        mints.push(accounts.token_mint);
    }
    assert_eq!(event.current_nft_count, 3);
    assert_eq!(event.current_digital_access_count, tiers);
    assert_eq!(event.creator, creator);
    assert_eq!(event.name, name);
    for i in 0..mints.len() {
        for j in 0..i {
            assert_ne!(mints[i], mints[j]);
        }
    }
}

#[test]
fn configuration_changes_only_by_event_count() {
    let mut config = fresh_config();
    let start = config;
    let mut event = new_event(&mut config);
    add_digital_access(&PROGRAM, &access_accounts(0, 0, CREATOR), &mut event, 0, 1, 1, b"n".to_vec(), b"s".to_vec(), b"d".to_vec(), b"u".to_vec())
        .unwrap();
    mint_token(&PROGRAM, &mint_accounts(0, 0), &config, &mut event, 0, b"a".to_vec(), b"b".to_vec(), b"c".to_vec()).unwrap();
    buy_token(&PROGRAM, &buy_accounts(0, 1), &config, &mut event, 0, b"a".to_vec(), b"b".to_vec(), b"c".to_vec()).unwrap();
    update_token_metadata(&PROGRAM, &update_accounts(0, 0, ADMIN), &config, &event, &stored_metadata(), 0, 0, b"n".to_vec())
        .unwrap();
    // a refused creation leaves the count
    let r = initialize_event(&PROGRAM, &event_accounts(0), &mut config, 0, b"a".to_vec(), b"b".to_vec(), b"c".to_vec(), b"d".to_vec());
    assert!(r.is_err());
    let _ = new_event(&mut config);
    assert_eq!(config.event_count, start.event_count + 2);
    assert_eq!(config.authority, start.authority);
    assert_eq!(config.treasury, start.treasury);
    assert_eq!(config.bump, start.bump);
    assert_eq!(config.treasury_bump, start.treasury_bump);
}

#[test]
fn accounts_written_must_be_writable() {
    let mut c = config_accounts();
    c.treasury_is_writable = false;
    let e = initialize_config(&PROGRAM, &c).unwrap_err();
    assert_eq!(e, ProgramError::ConstraintMut);
    assert_eq!(e.code(), Some(2000));
    // the account created comes before the signer's own flag
    let mut c = config_accounts();
    c.config_is_writable = false;
    c.authority_is_writable = false;
    c.treasury = Pubkey([99u8; 32]);
    assert_eq!(initialize_config(&PROGRAM, &c).unwrap_err(), ProgramError::ConstraintMut);
    let mut c = config_accounts();
    c.authority_is_writable = false;
    c.treasury = Pubkey([99u8; 32]);
    // the signer is checked before the treasury's address
    assert_eq!(initialize_config(&PROGRAM, &c).unwrap_err(), ProgramError::ConstraintMut);

    let mut config = fresh_config();
    let mut a = event_accounts(0);
    a.config_is_writable = false;
    let r = initialize_event(&PROGRAM, &a, &mut config, 0, b"a".to_vec(), b"b".to_vec(), b"c".to_vec(), b"d".to_vec());
    assert_eq!(r.unwrap_err(), ProgramError::ConstraintMut);
    assert_eq!(config.event_count, 0);
    let mut a = event_accounts(0);
    a.edition_account_is_writable = false;
    let r = initialize_event(&PROGRAM, &a, &mut config, 0, b"a".to_vec(), b"b".to_vec(), b"c".to_vec(), b"d".to_vec());
    assert_eq!(r.unwrap_err(), ProgramError::ConstraintMut);

    let mut event = new_event(&mut config);
    let mut aa = access_accounts(0, 0, CREATOR);
    aa.event_is_writable = false;
    let r = add_digital_access(&PROGRAM, &aa, &mut event, 0, 1, 1, b"n".to_vec(), b"s".to_vec(), b"d".to_vec(), b"u".to_vec());
    assert_eq!(r.unwrap_err(), ProgramError::ConstraintMut);
    assert_eq!(event.current_digital_access_count, 0);
    // the event's own writability is checked before its creator
    let mut aa = access_accounts(0, 0, STRANGER);
    aa.event_is_writable = false;
    let r = add_digital_access(&PROGRAM, &aa, &mut event, 0, 1, 1, b"n".to_vec(), b"s".to_vec(), b"d".to_vec(), b"u".to_vec());
    assert_eq!(r.unwrap_err(), ProgramError::ConstraintMut);

    let mut ma = mint_accounts(0, 0);
    ma.destination_is_writable = false;
    let r = mint_token(&PROGRAM, &ma, &config, &mut event, 0, b"a".to_vec(), b"b".to_vec(), b"c".to_vec());
    assert_eq!(r.unwrap_err(), ProgramError::ConstraintMut);
    // the destination is checked before the authority's has-one
    ma.authority = STRANGER;
    let r = mint_token(&PROGRAM, &ma, &config, &mut event, 0, b"a".to_vec(), b"b".to_vec(), b"c".to_vec());
    assert_eq!(r.unwrap_err(), ProgramError::ConstraintMut);
    let mut ma = mint_accounts(0, 0);
    ma.collection_master_edition_is_writable = false;
    let r = mint_token(&PROGRAM, &ma, &config, &mut event, 0, b"a".to_vec(), b"b".to_vec(), b"c".to_vec());
    assert_eq!(r.unwrap_err(), ProgramError::ConstraintMut);

    let mut ba = buy_accounts(0, 0);
    ba.event_creator_is_writable = false;
    ba.event_creator = STRANGER;
    // writability of the creator's account comes before its address
    let r = buy_token(&PROGRAM, &ba, &config, &mut event, 0, b"a".to_vec(), b"b".to_vec(), b"c".to_vec());
    assert_eq!(r.unwrap_err(), ProgramError::ConstraintMut);
    let mut ba = buy_accounts(0, 0);
    ba.buyer_token_account_is_writable = false;
    let r = buy_token(&PROGRAM, &ba, &config, &mut event, 0, b"a".to_vec(), b"b".to_vec(), b"c".to_vec());
    assert_eq!(r.unwrap_err(), ProgramError::ConstraintMut);
    assert_eq!(event.current_nft_count, 0);

    let mut ua = update_accounts(0, 0, STRANGER);
    ua.authority_is_writable = false;
    // the signer's writability comes before the has-one on the configuration
    let r = update_token_metadata(&PROGRAM, &ua, &config, &event, &stored_metadata(), 0, 0, b"new".to_vec());
    assert_eq!(r.unwrap_err(), ProgramError::ConstraintMut);

    assert_eq!(
        contracts::initialize_config(&contracts::InitializeConfig {
            authority: ADMIN,
            authority_is_signer: true,
            authority_is_writable: false,
        }),
        Err(ProgramError::ConstraintMut)
    );
}

#[test]
fn a_second_update_to_the_same_uri_sends_the_same_data() {
    let mut config = fresh_config();
    let event = new_event(&mut config);
    let accounts = update_accounts(0, 0, ADMIN);
    let first = update_token_metadata(&PROGRAM, &accounts, &config, &event, &stored_metadata(), 0, 0, b"new".to_vec())
        .unwrap();
    // the metadata as the metadata program stores what it was sent
    let as_stored = match &first.instruction {
        CpiInstruction::UpdateMetadataAccountsV2 { data: Some(d), .. } => MetadataAccount {
            name: d.name.clone(),
            symbol: d.symbol.clone(),
            uri: d.uri.clone(),
            seller_fee_basis_points: d.seller_fee_basis_points,
            creators: d.creators.clone(),
            collection: d.collection,
            uses: d.uses,
        },
        other => panic!("unexpected {:?}", other),
    };
    let again = update_token_metadata(&PROGRAM, &accounts, &config, &event, &as_stored, 0, 0, b"new".to_vec()).unwrap();
    assert_eq!(format!("{:?}", again), format!("{:?}", first));
    // and back to the old URI gives the data first stored
    let back = update_token_metadata(&PROGRAM, &accounts, &config, &event, &as_stored, 0, 0, b"old".to_vec()).unwrap();
    match back.instruction {
        CpiInstruction::UpdateMetadataAccountsV2 { data, .. } => {
            let d = data.unwrap();
            let m = stored_metadata();
            assert_eq!(d.name, m.name);
            assert_eq!(d.symbol, m.symbol);
            assert_eq!(d.uri, m.uri);
            assert_eq!(d.seller_fee_basis_points, m.seller_fee_basis_points);
            assert_eq!(format!("{:?}", d.creators), format!("{:?}", m.creators));
            assert_eq!(format!("{:?}", d.collection), format!("{:?}", m.collection));
            assert_eq!(format!("{:?}", d.uses), format!("{:?}", m.uses));
        }
        other => panic!("unexpected {:?}", other),
    }
}
