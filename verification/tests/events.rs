use anchor_programs::events::{
    cancel_registration, close_event, collection_token_address_seeds, edit_event,
    event_address_seeds, initialize_event, mint_nft, nft_mint_address_seeds,
    register_event, registration_address_seeds, stored_event_seeds, CancelRegistration,
    CloseEvent, EditEvent, ErrorCode, Event, EventRegistration, InitializeEvent, MintNft,
    RegisterEvent, ANCHOR_DISCRIMINATOR_SIZE, SYMBOL, CollectionVerification,
};
use anchor_programs::key::Pubkey;

fn key(b: u8) -> Pubkey {
    Pubkey::new_from_array([b; 32])
}

fn blank_event() -> Event {
    Event {
        creator: key(0),
        name: String::new(),
        description: String::new(),
        url: String::new(),
        attentance_code: [0; 32],
        start_time: 0,
        end_time: 0,
        total_attentees: 0,
        registered_attentees: 0,
        collection_mint: key(0),
    }
}

fn blank_registration() -> EventRegistration {
    EventRegistration {
        event: key(0),
        attentee: key(0),
        registered: false,
        attented: false,
        attentence_nft_minted: false,
    }
}

fn event(start: i64, end: i64, total: u32, registered: u32) -> Event {
    Event {
        creator: key(1),
        name: "RustConf".to_string(),
        description: "talks".to_string(),
        url: "https://example.org/e.json".to_string(),
        attentance_code: [7; 32],
        start_time: start,
        end_time: end,
        total_attentees: total,
        registered_attentees: registered,
        collection_mint: key(9),
    }
}

fn init_ctx() -> InitializeEvent {
    InitializeEvent {
        payer: key(1),
        event_account: blank_event(),
        collection_mint: key(5),
        collection_mint_bump: 254,
    }
}

#[test]
fn constants() {
    assert_eq!(ANCHOR_DISCRIMINATOR_SIZE, 8);
    assert_eq!(SYMBOL, "TLT");
}

#[test]
fn initialize_event_accepts_start_after_end() {
    let mut ctx = init_ctx();
    let plan = initialize_event(
        &mut ctx,
        "RustConf".to_string(),
        "talks".to_string(),
        "https://example.org/e.json".to_string(),
        [7; 32],
        200,
        100,
        50,
        key(9),
    )
    .unwrap();
    let e = &ctx.event_account;
    assert_eq!(e.creator, key(1));
    assert_eq!(e.name, "RustConf");
    assert_eq!(e.description, "talks");
    assert_eq!(e.url, "https://example.org/e.json");
    assert_eq!(e.attentance_code, [7; 32]);
    assert_eq!((e.start_time, e.end_time), (200, 100));
    assert_eq!(e.total_attentees, 50);
    assert_eq!(e.registered_attentees, 0);
    assert_eq!(e.collection_mint, key(9));

    assert_eq!(
        plan.signer_seeds,
        vec![b"collection_mint".to_vec(), b"RustConf".to_vec(), vec![254]]
    );
    assert_eq!(plan.mint_amount, 1);
    assert_eq!(plan.max_supply, Some(0));
    assert_eq!(plan.metadata.name, "RustConf");
    assert_eq!(plan.metadata.symbol, "TLT");
    assert_eq!(plan.metadata.uri, "https://example.org/e.json");
    assert_eq!(plan.metadata.seller_fee_basis_points, 0);
    let creators = plan.metadata.creators.unwrap();
    assert_eq!(creators.len(), 1);
    assert_eq!(creators[0].address, key(5));
    assert!(!creators[0].verified);
    assert_eq!(creators[0].share, 100);
    assert!(plan.metadata.is_mutable);
    assert!(plan.metadata.update_authority_is_signer);
    assert_eq!(plan.metadata.collection_size, Some(0));
    assert!(plan.metadata.collection.is_none());
    assert!(plan.metadata.uses.is_none());
    assert!(matches!(plan.verification, CollectionVerification::SignAsCreator));
}

#[test]
fn initialize_event_refuses_start_not_after_end() {
    for (start, end) in [(100, 200), (150, 150)] {
        let mut ctx = init_ctx();
        let r = initialize_event(
            &mut ctx,
            "x".to_string(),
            String::new(),
            String::new(),
            [0; 32],
            start,
            end,
            1,
            key(9),
        );
        assert_eq!(r.err(), Some(ErrorCode::InvalidEventTime));
        assert_eq!(ctx.event_account.name, "");
    }
}

#[test]
fn edit_event_replaces_without_checks() {
    let mut ctx = EditEvent { creator: key(1), event_account: event(200, 100, 50, 3) };
    assert!(ctx.has_one_creator());
    assert!(edit_event(&mut ctx, "RustConf".to_string(), [8; 32], 10, 20, 2).is_ok());
    let e = &ctx.event_account;
    assert_eq!(e.attentance_code, [8; 32]);
    assert_eq!((e.start_time, e.end_time, e.total_attentees), (10, 20, 2));
    assert_eq!(e.registered_attentees, 3);
    assert_eq!(e.name, "RustConf");
    let other = EditEvent { creator: key(2), event_account: event(200, 100, 50, 3) };
    assert!(!other.has_one_creator());
}

#[test]
fn close_event_succeeds() {
    let ctx = CloseEvent { payer: key(3), event_account: event(1, 0, 1, 0) };
    assert!(close_event(&ctx).is_ok());
}

fn register_ctx(total: u32, registered: u32) -> RegisterEvent {
    RegisterEvent {
        attentee: key(4),
        event_account: event(200, 100, total, registered),
        event_account_key: key(6),
        registration_account: blank_registration(),
    }
}

#[test]
fn register_event_counts_and_records() {
    let mut ctx = register_ctx(2, 0);
    assert!(register_event(&mut ctx).is_ok());
    assert_eq!(ctx.event_account.registered_attentees, 1);
    let r = ctx.registration_account;
    assert_eq!(r.event, key(6));
    assert_eq!(r.attentee, key(4));
    assert!(r.registered && !r.attented && !r.attentence_nft_minted);
}

#[test]
fn register_event_refuses_when_full() {
    let mut ctx = register_ctx(2, 2);
    assert_eq!(register_event(&mut ctx), Err(ErrorCode::RegistrationCompleted));
    assert_eq!(ctx.event_account.registered_attentees, 2);
    assert!(!ctx.registration_account.registered);
}

#[test]
fn register_event_overflow_after_seats_lowered() {
    let mut ctx = register_ctx(5, u32::MAX);
    assert_eq!(register_event(&mut ctx), Err(ErrorCode::OverflowError));
    assert_eq!(ctx.event_account.registered_attentees, u32::MAX);
    // with fewer seats than registrations, registering goes on
    let mut ctx = register_ctx(1, 3);
    assert!(register_event(&mut ctx).is_ok());
    assert_eq!(ctx.event_account.registered_attentees, 4);
}

#[test]
fn register_then_cancel_restores_count() {
    let mut ctx = register_ctx(10, 4);
    register_event(&mut ctx).unwrap();
    let mut cancel = CancelRegistration {
        attentee: ctx.attentee,
        event_account: ctx.event_account.clone(),
        event_account_key: ctx.event_account_key,
        registration_account: ctx.registration_account,
    };
    assert!(cancel_registration(&mut cancel).is_ok());
    assert_eq!(cancel.event_account.registered_attentees, 4);
}

#[test]
fn cancel_registration_refuses_at_zero() {
    let mut ctx = CancelRegistration {
        attentee: key(4),
        event_account: event(200, 100, 3, 0),
        event_account_key: key(6),
        registration_account: blank_registration(),
    };
    assert_eq!(cancel_registration(&mut ctx), Err(ErrorCode::OverflowError));
    assert_eq!(ctx.event_account.registered_attentees, 0);
}

fn mint_ctx(start: i64, end: i64, registered: u32, minted: bool) -> MintNft {
    MintNft {
        attentee: key(4),
        event_account: event(start, end, 10, registered),
        event_account_key: key(6),
        registration_account: EventRegistration {
            event: key(6),
            attentee: key(4),
            registered: true,
            attented: false,
            attentence_nft_minted: minted,
        },
        collection_mint: key(5),
        collection_mint_bump: 253,
        nft_mint: key(8),
    }
}

#[test]
fn mint_nft_in_window_plans_named_nft() {
    let mut ctx = mint_ctx(100, 200, 3, false);
    let plan = mint_nft(&mut ctx, [7; 32], 150).unwrap();
    assert!(ctx.registration_account.attented);
    assert!(ctx.registration_account.attentence_nft_minted);
    assert_eq!(plan.metadata.name, "RustConf3");
    assert_eq!(plan.metadata.symbol, "TLT");
    assert_eq!(plan.metadata.uri, "https://example.org/e.json");
    assert_eq!(plan.metadata.seller_fee_basis_points, 0);
    assert!(plan.metadata.creators.is_none());
    assert!(plan.metadata.is_mutable && plan.metadata.update_authority_is_signer);
    assert_eq!(plan.metadata.collection_size, None);
    assert!(plan.metadata.collection.is_none());
    assert!(plan.metadata.uses.is_none());
    assert!(matches!(
        plan.verification,
        CollectionVerification::SetAndVerifySizedItem { collection_authority_record: None }
    ));
    assert_eq!(plan.mint_amount, 1);
    assert_eq!(plan.max_supply, Some(0));
    assert_eq!(
        plan.signer_seeds,
        vec![b"collection_mint".to_vec(), b"RustConf".to_vec(), vec![253]]
    );
}

#[test]
fn mint_nft_window_bounds_are_inclusive() {
    let mut a = mint_ctx(100, 200, 0, false);
    assert!(mint_nft(&mut a, [7; 32], 100).is_ok());
    let mut b = mint_ctx(100, 200, 0, false);
    assert!(mint_nft(&mut b, [7; 32], 200).is_ok());
    let mut c = mint_ctx(100, 200, 0, false);
    assert_eq!(mint_nft(&mut c, [7; 32], 99).err(), Some(ErrorCode::NotMinitingTime));
    let mut d = mint_ctx(100, 200, 0, false);
    assert_eq!(mint_nft(&mut d, [7; 32], 201).err(), Some(ErrorCode::NotMinitingTime));
    assert!(!d.registration_account.attentence_nft_minted);
}

#[test]
fn mint_nft_name_uses_decimal_count() {
    let mut ctx = mint_ctx(0, 10, 1234567890, false);
    let plan = mint_nft(&mut ctx, [7; 32], 5).unwrap();
    assert_eq!(plan.metadata.name, "RustConf1234567890");
    let mut ctx = mint_ctx(0, 10, 0, false);
    assert_eq!(mint_nft(&mut ctx, [7; 32], 5).unwrap().metadata.name, "RustConf0");
    let mut ctx = mint_ctx(0, 10, u32::MAX, false);
    assert_eq!(mint_nft(&mut ctx, [7; 32], 5).unwrap().metadata.name, "RustConf4294967295");
}

#[test]
fn mint_nft_refusals_in_order() {
    let mut ctx = mint_ctx(100, 200, 1, true);
    assert_eq!(mint_nft(&mut ctx, [1; 32], 50).err(), Some(ErrorCode::InvalidAttentanceCode));
    let mut ctx = mint_ctx(100, 200, 1, true);
    assert_eq!(mint_nft(&mut ctx, [7; 32], 50).err(), Some(ErrorCode::NftAlreadyMinted));
    assert!(!ctx.registration_account.attented);
}

#[test]
fn mint_nft_at_most_once() {
    let mut ctx = mint_ctx(100, 200, 1, false);
    assert!(mint_nft(&mut ctx, [7; 32], 150).is_ok());
    assert_eq!(mint_nft(&mut ctx, [7; 32], 150).err(), Some(ErrorCode::NftAlreadyMinted));
}

#[test]
fn new_event_never_mints() {
    let mut init = init_ctx();
    initialize_event(
        &mut init,
        "RustConf".to_string(),
        String::new(),
        String::new(),
        [7; 32],
        200,
        100,
        5,
        key(9),
    )
    .unwrap();
    for now in [50, 100, 150, 200, 250] {
        let mut ctx = mint_ctx(0, 0, 0, false);
        ctx.event_account = init.event_account.clone();
        assert_eq!(mint_nft(&mut ctx, [7; 32], now).err(), Some(ErrorCode::NotMinitingTime));
    }
}

#[test]
fn event_addresses() {
    let init = init_ctx();
    assert_eq!(
        init.event_account_seeds("RustConf"),
        vec![b"event".to_vec(), vec![1; 32], b"RustConf".to_vec()]
    );
    let e = event(1, 0, 1, 0);
    assert_eq!(stored_event_seeds(&e), event_address_seeds(&key(1), "RustConf"));
    let edit = EditEvent { creator: key(1), event_account: e };
    assert_eq!(edit.event_account_seeds("RustConf"), init.event_account_seeds("RustConf"));
    assert_eq!(
        registration_address_seeds(&key(6), &key(4)),
        vec![b"attentee".to_vec(), vec![6; 32], vec![4; 32]]
    );
    assert_eq!(
        nft_mint_address_seeds(&key(6), &key(4)),
        vec![b"nft_mint".to_vec(), vec![6; 32], vec![4; 32]]
    );
    assert_eq!(
        collection_token_address_seeds("Ünï"),
        vec![b"collection_associated_token".to_vec(), "Ünï".as_bytes().to_vec()]
    );
}

#[test]
fn collection_signs_alike_at_creation_and_minting() {
    let mut init = init_ctx();
    let created = initialize_event(
        &mut init,
        "RustConf".to_string(),
        String::new(),
        String::new(),
        [7; 32],
        200,
        100,
        5,
        key(9),
    )
    .unwrap();
    let mut ctx = mint_ctx(100, 200, 0, false);
    ctx.collection_mint_bump = init.collection_mint_bump;
    let minted = mint_nft(&mut ctx, [7; 32], 150).unwrap();
    assert_eq!(created.signer_seeds, minted.signer_seeds);
}

#[test]
fn event_addresses_differ_by_name_and_creator() {
    assert_ne!(event_address_seeds(&key(1), "a"), event_address_seeds(&key(1), "b"));
    assert_ne!(event_address_seeds(&key(1), "a"), event_address_seeds(&key(2), "a"));
}

#[test]
fn seats_stay_respected() {
    let mut ctx = register_ctx(2, 1);
    assert!(register_event(&mut ctx).is_ok());
    assert_eq!(ctx.event_account.registered_attentees, 2);
    assert_eq!(register_event(&mut ctx), Err(ErrorCode::RegistrationCompleted));
    assert_eq!(ctx.event_account.registered_attentees, 2);
}

#[test]
fn reregistration_gives_fresh_registration_at_same_nft_mint_address() {
    let mut m = mint_ctx(100, 200, 1, false);
    assert!(mint_nft(&mut m, [7; 32], 150).is_ok());
    let first_nft_mint = nft_mint_address_seeds(&m.event_account_key, &m.attentee);

    let mut cancel = CancelRegistration {
        attentee: m.attentee,
        event_account: m.event_account.clone(),
        event_account_key: m.event_account_key,
        registration_account: m.registration_account,
    };
    cancel_registration(&mut cancel).unwrap();
    let mut again = RegisterEvent {
        attentee: cancel.attentee,
        event_account: cancel.event_account.clone(),
        event_account_key: cancel.event_account_key,
        registration_account: blank_registration(),
    };
    register_event(&mut again).unwrap();
    // the new registration has not minted: a second NFT is kept out by its
    // mint account, whose address has not changed
    assert!(!again.registration_account.attentence_nft_minted);
    assert_eq!(nft_mint_address_seeds(&again.event_account_key, &again.attentee), first_nft_mint);
}

#[test]
fn same_name_same_collection_mint_for_any_creator() {
    let mut a = init_ctx();
    let mut b = InitializeEvent { payer: key(2), ..init_ctx() };
    let pa = initialize_event(&mut a, "Conf".to_string(), String::new(), String::new(), [0; 32], 2, 1, 1, key(9)).unwrap();
    let pb = initialize_event(&mut b, "Conf".to_string(), String::new(), String::new(), [0; 32], 2, 1, 1, key(9)).unwrap();
    // the collection mint's address seeds do not depend on the creator
    assert_eq!(pa.signer_seeds[..2], pb.signer_seeds[..2]);
    assert_ne!(a.event_account_seeds("Conf"), b.event_account_seeds("Conf"));
}
