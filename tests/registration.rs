use anchor_lang::prelude::Pubkey;
use verfi::address::{
    derive_address, derive_credential_address, derive_event_address, derive_mint_address, Address,
};
use verfi::register::{register_attendee, IssuerAction, RegisterAttendee, Stage};
use verfi::registry::{create_event, CreateEvent, Event, Registry, ATTENDEE_SPACE};
use verfi::VerfiError;

fn program() -> Address {
    Address { bytes: [7u8; 32] }
}

fn key(b: u8) -> Address {
    Address { bytes: [b; 32] }
}

fn pubkey(a: &Address) -> Pubkey {
    Pubkey::new_from_array(a.bytes)
}

fn new_event(registry: &mut Registry, organizer: &Address, name: &str, uri: &str) -> Address {
    let ctx = CreateEvent { signer: *organizer };
    create_event(registry, &ctx, name.to_string(), uri.to_string()).unwrap()
}

/// Runs a registration to the end with every token step succeeding.
fn register(registry: &mut Registry, event: &Address, holder: &Address) -> Result<Address, VerfiError> {
    let ctx = RegisterAttendee { signer: *holder, event: *event };
    let reg = register_attendee(registry, &ctx)?;
    let reg = reg.advance(true)?;
    let reg = reg.advance(true)?;
    registry.commit(&reg)
}

#[test]
fn event_address_is_deterministic() {
    let organizer = key(1);
    let name = "DevConf".to_string();
    let a = derive_event_address(&program(), &organizer, &name).unwrap();
    let b = derive_event_address(&program(), &organizer, &name).unwrap();
    assert_eq!(a.0.bytes, b.0.bytes);
    assert_eq!(a.1, b.1);
}

#[test]
fn event_address_matches_program_address_search() {
    let organizer = key(1);
    let name = "DevConf".to_string();
    let (address, bump) = derive_event_address(&program(), &organizer, &name).unwrap();
    let (expected, expected_bump) = Pubkey::find_program_address(
        &[b"event", organizer.bytes.as_ref(), name.as_bytes()],
        &pubkey(&program()),
    );
    assert_eq!(address.bytes, expected.to_bytes());
    assert_eq!(bump, expected_bump);
    assert_ne!(address.bytes, program().bytes);
}

#[test]
fn event_addresses_differ_by_name_and_organizer() {
    let a = derive_event_address(&program(), &key(1), &"DevConf".to_string()).unwrap();
    let b = derive_event_address(&program(), &key(1), &"RustConf".to_string()).unwrap();
    let c = derive_event_address(&program(), &key(2), &"DevConf".to_string()).unwrap();
    assert_ne!(a.0.bytes, b.0.bytes);
    assert_ne!(a.0.bytes, c.0.bytes);
}

#[test]
fn credential_and_mint_addresses_match_program_address_search() {
    let event = key(3);
    let holder = key(4);
    let (credential, bump) = derive_credential_address(&program(), &event, &holder).unwrap();
    let expected = Pubkey::find_program_address(
        &[b"badge", event.bytes.as_ref(), holder.bytes.as_ref()],
        &pubkey(&program()),
    );
    assert_eq!(credential.bytes, expected.0.to_bytes());
    assert_eq!(bump, expected.1);
    let (mint, _) = derive_mint_address(&program(), &event, &holder).unwrap();
    let expected_mint = Pubkey::find_program_address(
        &[b"mint", event.bytes.as_ref(), holder.bytes.as_ref()],
        &pubkey(&program()),
    );
    assert_eq!(mint.bytes, expected_mint.0.to_bytes());
    assert_ne!(mint.bytes, credential.bytes);
}

#[test]
fn oversized_name_is_refused() {
    let name = "x".repeat(51);
    assert_eq!(
        derive_event_address(&program(), &key(1), &name).unwrap_err(),
        VerfiError::InvalidSeedLength
    );
    let mut registry = Registry::new(program());
    let ctx = CreateEvent { signer: key(1) };
    assert_eq!(
        create_event(&mut registry, &ctx, name, "ipfs://x".to_string()),
        Err(VerfiError::InvalidSeedLength)
    );
    let longest = "x".repeat(50);
    assert!(derive_event_address(&program(), &key(1), &longest).is_ok());
}

#[test]
fn created_event_is_found_at_its_address() {
    let mut registry = Registry::new(program());
    let organizer = key(1);
    let address = new_event(&mut registry, &organizer, "DevConf", "ipfs://x");
    let (derived, bump) = derive_event_address(&program(), &organizer, &"DevConf".to_string()).unwrap();
    assert_eq!(address.bytes, derived.bytes);
    let event = registry.get_event(&derived).unwrap();
    assert_eq!(event.authority.bytes, organizer.bytes);
    assert_eq!(event.name, "DevConf");
    assert_eq!(event.uri, "ipfs://x");
    assert_eq!(event.bump, bump);
    assert_eq!(event.total_minted, 0);
}

#[test]
fn creating_an_event_twice_is_refused() {
    let mut registry = Registry::new(program());
    let ctx = CreateEvent { signer: key(1) };
    assert!(create_event(&mut registry, &ctx, "DevConf".to_string(), "ipfs://x".to_string()).is_ok());
    assert_eq!(
        create_event(&mut registry, &ctx, "DevConf".to_string(), "ipfs://x".to_string()),
        Err(VerfiError::DuplicateEvent)
    );
    let other = CreateEvent { signer: key(2) };
    assert!(create_event(&mut registry, &other, "DevConf".to_string(), "ipfs://y".to_string()).is_ok());
}

#[test]
fn unknown_event_is_not_found() {
    let registry = Registry::new(program());
    assert_eq!(registry.get_event(&key(9)).unwrap_err(), VerfiError::EventNotFound);
    let ctx = RegisterAttendee { signer: key(2), event: key(9) };
    assert_eq!(register_attendee(&registry, &ctx).unwrap_err(), VerfiError::EventNotFound);
}

#[test]
fn registration_scenario() {
    let mut registry = Registry::new(program());
    let organizer = key(1);
    let (h1, h2) = (key(11), key(12));
    let event = new_event(&mut registry, &organizer, "DevConf", "ipfs://x");

    let credential = register(&mut registry, &event, &h1).unwrap();
    assert_eq!(registry.get_event(&event).unwrap().total_minted, 1);
    let (expected, bump) = derive_credential_address(&program(), &event, &h1).unwrap();
    assert_eq!(credential.bytes, expected.bytes);
    let stored = registry.get_credential(&event, &h1).unwrap();
    assert_eq!(stored.event.bytes, event.bytes);
    assert_eq!(stored.attendee.bytes, h1.bytes);
    assert_eq!(stored.bump, bump);

    assert_eq!(register(&mut registry, &event, &h1), Err(VerfiError::AlreadyRegistered));
    assert_eq!(registry.get_event(&event).unwrap().total_minted, 1);

    assert!(register(&mut registry, &event, &h2).is_ok());
    assert_eq!(registry.get_event(&event).unwrap().total_minted, 2);
    assert!(registry.get_credential(&event, &h2).is_some());
}

#[test]
fn overlapping_registrations_issue_one_credential() {
    let mut registry = Registry::new(program());
    let event = new_event(&mut registry, &key(1), "DevConf", "ipfs://x");
    let holder = key(11);
    let ctx = RegisterAttendee { signer: holder, event };
    let mut pending = Vec::new();
    for _ in 0..5 {
        let reg = register_attendee(&registry, &ctx).unwrap();
        pending.push(reg.advance(true).unwrap().advance(true).unwrap());
    }
    let outcomes: Vec<Result<Address, VerfiError>> = pending.iter().map(|r| registry.commit(r)).collect();
    assert_eq!(outcomes.iter().filter(|r| r.is_ok()).count(), 1);
    assert_eq!(
        outcomes.iter().filter(|r| **r == Err(VerfiError::AlreadyRegistered)).count(),
        4
    );
    assert_eq!(registry.get_event(&event).unwrap().total_minted, 1);
    assert_eq!(register_attendee(&registry, &ctx).unwrap_err(), VerfiError::AlreadyRegistered);
}

#[test]
fn failed_mint_leaves_no_credential() {
    let mut registry = Registry::new(program());
    let event = new_event(&mut registry, &key(1), "DevConf", "ipfs://x");
    let ctx = RegisterAttendee { signer: key(11), event };
    let reg = register_attendee(&registry, &ctx).unwrap();
    assert_eq!(reg.stage(), Stage::CredentialReserved);
    assert_eq!(reg.advance(false).unwrap_err(), VerfiError::IssuanceFailed);
    assert!(registry.get_credential(&event, &key(11)).is_none());
    assert_eq!(registry.get_event(&event).unwrap().total_minted, 0);
    assert!(register(&mut registry, &event, &key(11)).is_ok());
}

#[test]
fn failed_metadata_leaves_no_credential() {
    let mut registry = Registry::new(program());
    let event = new_event(&mut registry, &key(1), "DevConf", "ipfs://x");
    let ctx = RegisterAttendee { signer: key(11), event };
    let reg = register_attendee(&registry, &ctx).unwrap().advance(true).unwrap();
    assert_eq!(reg.stage(), Stage::TokenMinted);
    assert_eq!(reg.advance(false).unwrap_err(), VerfiError::MetadataAttachFailed);
    assert!(registry.get_credential(&event, &key(11)).is_none());
    assert_eq!(registry.get_event(&event).unwrap().total_minted, 0);
}

#[test]
fn registration_asks_for_mint_then_metadata_then_commit() {
    let mut registry = Registry::new(program());
    let organizer = key(1);
    let event = new_event(&mut registry, &organizer, "DevConf", "ipfs://x");
    let holder = key(11);
    let reg = register_attendee(&registry, &RegisterAttendee { signer: holder, event }).unwrap();
    let (mint_address, _) = derive_mint_address(&program(), &event, &holder).unwrap();
    match reg.next_action() {
        IssuerAction::MintToken { mint, recipient, amount } => {
            assert_eq!(mint.bytes, mint_address.bytes);
            assert_eq!(recipient.bytes, holder.bytes);
            assert_eq!(amount, 1);
        }
        other => panic!("unexpected action {:?}", other),
    }
    let reg = reg.advance(true).unwrap();
    match reg.next_action() {
        IssuerAction::AttachMetadata {
            mint,
            name,
            symbol,
            uri,
            seller_fee_basis_points,
            is_mutable,
            update_authority_is_signer,
        } => {
            assert_eq!(mint.bytes, mint_address.bytes);
            assert_eq!(name, "DevConf");
            assert_eq!(symbol, "POAP");
            assert_eq!(uri, "ipfs://x");
            assert_eq!(seller_fee_basis_points, 0);
            assert!(!is_mutable);
            assert!(update_authority_is_signer);
        }
        other => panic!("unexpected action {:?}", other),
    }
    let reg = reg.advance(true).unwrap();
    assert!(matches!(reg.next_action(), IssuerAction::Commit));
    let reg = reg.advance(true).unwrap();
    assert_eq!(reg.stage(), Stage::MetadataAttached);
}

#[test]
fn signer_seeds_rederive_the_event_address() {
    let mut registry = Registry::new(program());
    let organizer = key(1);
    let event = new_event(&mut registry, &organizer, "DevConf", "ipfs://x");
    let reg = register_attendee(&registry, &RegisterAttendee { signer: key(11), event }).unwrap();
    let seeds = reg.signer_seeds();
    assert_eq!(seeds.len(), 4);
    assert_eq!(seeds[0], b"event".to_vec());
    assert_eq!(seeds[1], organizer.bytes.to_vec());
    assert_eq!(seeds[2], b"DevConf".to_vec());
    let slices: Vec<&[u8]> = seeds.iter().map(|s| s.as_slice()).collect();
    let address = Pubkey::create_program_address(&slices, &pubkey(&program())).unwrap();
    assert_eq!(address.to_bytes(), event.bytes);
}

#[test]
fn credential_lookup_needs_the_right_pair() {
    let mut registry = Registry::new(program());
    let event = new_event(&mut registry, &key(1), "DevConf", "ipfs://x");
    let other_event = new_event(&mut registry, &key(1), "RustConf", "ipfs://y");
    assert!(register(&mut registry, &event, &key(11)).is_ok());
    assert!(registry.get_credential(&event, &key(11)).is_some());
    assert!(registry.get_credential(&event, &key(12)).is_none());
    assert!(registry.get_credential(&other_event, &key(11)).is_none());
    assert_eq!(registry.get_event(&other_event).unwrap().total_minted, 0);
}

#[test]
fn registry_keeps_its_program() {
    let registry = Registry::new(program());
    assert_eq!(registry.program_id().bytes, program().bytes);
}

#[test]
fn event_is_found_by_organizer_and_name() {
    let mut registry = Registry::new(program());
    let organizer = key(1);
    let address = new_event(&mut registry, &organizer, "DevConf", "ipfs://x");
    let event = registry.find_event(&organizer, &"DevConf".to_string()).unwrap();
    assert_eq!(event.authority.bytes, organizer.bytes);
    assert_eq!(event.uri, "ipfs://x");
    assert_eq!(event.bump, registry.get_event(&address).unwrap().bump);
    assert_eq!(
        registry.find_event(&key(2), &"DevConf".to_string()).unwrap_err(),
        VerfiError::EventNotFound
    );
    assert_eq!(
        registry.find_event(&organizer, &"Other".to_string()).unwrap_err(),
        VerfiError::EventNotFound
    );
    assert_eq!(
        registry.find_event(&organizer, &"y".repeat(40)).unwrap_err(),
        VerfiError::EventNotFound
    );
    assert_eq!(
        registry.find_event(&organizer, &"y".repeat(51)).unwrap_err(),
        VerfiError::InvalidSeedLength
    );
}

#[test]
fn account_space_counts_bytes() {
    assert_eq!(Event::space(&"DevConf".to_string(), &"ipfs://x".to_string()), Some(72));
    assert_eq!(Event::space(&"caf\u{e9}".to_string(), &String::new()), Some(62));
    assert_eq!(ATTENDEE_SPACE, 73);
}

#[test]
fn event_under_another_program_is_not_found() {
    let mut registry = Registry::new(program());
    let event = new_event(&mut registry, &key(1), "DevConf", "ipfs://x");
    let other = Registry::new(key(8));
    assert_eq!(other.get_event(&event).unwrap_err(), VerfiError::EventNotFound);
}

#[test]
fn record_at_a_foreign_address_is_not_found() {
    let mut registry = Registry::new(program());
    let organizer = key(1);
    let stored = registry.store_event(key(5), 255, organizer, "DevConf".to_string(), "ipfs://x".to_string());
    assert_eq!(stored.unwrap().bytes, key(5).bytes);
    assert_eq!(registry.get_event(&key(5)).unwrap_err(), VerfiError::EventNotFound);
    assert_eq!(
        registry.store_event(key(5), 255, organizer, "Other".to_string(), String::new()),
        Err(VerfiError::DuplicateEvent)
    );
    let (address, bump) = derive_event_address(&program(), &organizer, &"DevConf".to_string()).unwrap();
    assert!(registry.store_event(address, bump, organizer, "DevConf".to_string(), "ipfs://x".to_string()).is_ok());
    assert_eq!(registry.get_event(&address).unwrap().total_minted, 0);
    let wrong_bump = bump.wrapping_sub(1);
    let mut other = Registry::new(program());
    assert!(other.store_event(address, wrong_bump, organizer, "DevConf".to_string(), "ipfs://x".to_string()).is_ok());
    assert_eq!(other.get_event(&address).unwrap_err(), VerfiError::EventNotFound);
}

#[test]
fn long_name_spreads_over_two_seeds() {
    let mut registry = Registry::new(program());
    let organizer = key(1);
    let name = "International Conference on Verified Software".to_string();
    assert_eq!(name.len(), 45);
    let address = new_event(&mut registry, &organizer, &name, "ipfs://x");
    let expected = Pubkey::find_program_address(
        &[b"event", organizer.bytes.as_ref(), &name.as_bytes()[..32], &name.as_bytes()[32..]],
        &pubkey(&program()),
    );
    assert_eq!(address.bytes, expected.0.to_bytes());
    let event = registry.find_event(&organizer, &name).unwrap();
    assert_eq!(event.bump, expected.1);
    assert_eq!(event.name, name);
    assert!(register(&mut registry, &address, &key(11)).is_ok());
    assert_eq!(registry.get_event(&address).unwrap().total_minted, 1);
}

#[test]
fn too_many_seeds_are_refused() {
    let seeds: Vec<Vec<u8>> = (0..16u8).map(|i| vec![i]).collect();
    assert_eq!(derive_address(&seeds, &program()).unwrap_err(), VerfiError::InvalidSeedLength);
    let seeds: Vec<Vec<u8>> = (0..15u8).map(|i| vec![i]).collect();
    assert!(derive_address(&seeds, &program()).is_ok());
    let seeds = vec![vec![0u8; 33]];
    assert_eq!(derive_address(&seeds, &program()).unwrap_err(), VerfiError::InvalidSeedLength);
}

#[test]
fn registration_carries_its_addresses() {
    let mut registry = Registry::new(program());
    let event = new_event(&mut registry, &key(1), "DevConf", "ipfs://x");
    let holder = key(11);
    let reg = register_attendee(&registry, &RegisterAttendee { signer: holder, event }).unwrap();
    let (credential, bump) = derive_credential_address(&program(), &event, &holder).unwrap();
    assert_eq!(reg.event().bytes, event.bytes);
    assert_eq!(reg.holder().bytes, holder.bytes);
    assert_eq!(reg.credential().bytes, credential.bytes);
    assert_eq!(reg.credential_bump(), bump);
    let (mint, _) = derive_mint_address(&program(), &event, &holder).unwrap();
    assert_eq!(reg.mint().bytes, mint.bytes);
}
