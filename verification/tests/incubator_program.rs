use anchor_lang::AnchorSerialize;
use incubator::incubator::state::{
    DepositEvent, DraggosMetadata, HatchEvent, Incubator, IncubatorError, IncubatorState, Slot,
    UpdateAuthority,
};
use incubator::incubator::{
    create_draggos_metadata, create_incubator, create_incubator_with_address, create_slot,
    deposit_incubator, hatch_incubator, reset_incubator, revert_candy_machine_authority,
    try_hatch_incubator, update_incubator_state, update_metadata_update_authority,
    CreateDraggosMetadata, CreateIncubator, CreateSlot, DepositIncubator, HatchIncubator,
    ResetIncubator, RevertCandyMachineAuthority, UpdateIncubatorState,
    UpdateMetadataUpdateAuthority,
};
use incubator::key::Pubkey;
use incubator::metadata::{Creator, MAX_METADATA_LEN};
use anchor_lang::solana_program::pubkey::Pubkey as SolanaPubkey;
use mpl_token_metadata::state::{Creator as MplCreator, Data, Key, Metadata};

fn k(n: u8) -> Pubkey {
    Pubkey([n; 32])
}

fn keys(from: u8, count: usize) -> Vec<Pubkey> {
    (0..count).map(|i| k(from + i as u8)).collect()
}

fn incubator(state: IncubatorState, mints: usize, slots: usize) -> Incubator {
    Incubator {
        authority: k(1),
        deposit_authority: k(2),
        bump: 255,
        current_batch: 4,
        hatched_total: 7,
        state,
        mints: keys(100, mints),
        slots: keys(50, slots),
    }
}

fn draggo(mint: Pubkey, hatched: bool) -> DraggosMetadata {
    DraggosMetadata {
        authority: k(1),
        mint,
        bump: 240,
        hatched,
        hatched_date: 0,
        hatched_batch: 0,
        uri: "https://draggos.example/hatched.json".to_string(),
    }
}

fn slot(index: u8, mint: Option<Pubkey>) -> Slot {
    Slot { authority: k(1), incubator: k(3), bump: 200, index, mint }
}

fn metadata_bytes(owner_mint: Pubkey) -> Vec<u8> {
    let md = Metadata {
        key: Key::MetadataV1,
        update_authority: SolanaPubkey::new_from_array([6; 32]),
        mint: SolanaPubkey::new_from_array(owner_mint.0),
        data: Data {
            name: "Draggo #1".to_string(),
            symbol: "DRAG".to_string(),
            uri: "https://draggos.example/egg.json".to_string(),
            seller_fee_basis_points: 500,
            creators: Some(vec![MplCreator {
                address: SolanaPubkey::new_from_array([8; 32]),
                verified: true,
                share: 100,
            }]),
        },
        primary_sale_happened: false,
        is_mutable: true,
        edition_nonce: None,
        token_standard: None,
        collection: None,
        uses: None,
        collection_details: None,
    };
    let mut bytes = md.try_to_vec().unwrap();
    bytes.resize(MAX_METADATA_LEN, 0);
    bytes
}

fn token_metadata_program() -> Pubkey {
    Pubkey(mpl_token_metadata::id().to_bytes())
}

fn hatch_ctx(mint: Pubkey) -> HatchIncubator {
    HatchIncubator {
        authority: k(1),
        incubator: incubator(IncubatorState::Hatching, 2, 2),
        draggos_metadata: draggo(mint, false),
        token_metadata: k(20),
        token_metadata_owner: token_metadata_program(),
        token_metadata_data: metadata_bytes(mint),
        update_authority: UpdateAuthority { authority: k(1), bump: 252 },
        update_authority_key: k(21),
        slot: slot(0, Some(mint)),
        token_metadata_program: token_metadata_program(),
    }
}

// create_incubator

fn create_ctx(deposit_authority: Pubkey) -> CreateIncubator {
    CreateIncubator {
        incubator: incubator(IncubatorState::Paused, 0, 0),
        update_authority: UpdateAuthority { authority: k(0), bump: 0 },
        deposit_authority,
        controller_program: k(30),
        authority: k(31),
    }
}

#[test]
fn create_incubator_accepts_the_controller_deposit_authority() {
    let (pda, _) = SolanaPubkey::find_program_address(
        &[b"incubator_v0", b"deposit_authority"],
        &SolanaPubkey::new_from_array([30; 32]),
    );
    let mut ctx = create_ctx(Pubkey(pda.to_bytes()));
    assert_eq!(create_incubator(&mut ctx, 11, 12), Ok(()));
    assert_eq!(ctx.incubator.bump, 11);
    assert_eq!(ctx.incubator.authority, k(31));
    assert_eq!(ctx.incubator.deposit_authority, Pubkey(pda.to_bytes()));
    assert_eq!(ctx.update_authority, UpdateAuthority { authority: k(31), bump: 12 });
    assert_eq!(ctx.incubator.state, IncubatorState::Paused);
}

#[test]
fn create_incubator_refuses_another_deposit_authority() {
    let mut ctx = create_ctx(k(30));
    assert_eq!(create_incubator(&mut ctx, 11, 12), Err(IncubatorError::InvalidDepositAuthority));
    assert_eq!(ctx.incubator.bump, 255);
    assert_eq!(ctx.incubator.authority, k(1));
    assert_eq!(ctx.update_authority, UpdateAuthority { authority: k(0), bump: 0 });
}

#[test]
fn create_incubator_with_address_compares_the_derived_address() {
    let mut ctx = create_ctx(k(40));
    assert_eq!(create_incubator_with_address(&mut ctx, 1, 2, None), Err(IncubatorError::InvalidDepositAuthority));
    assert_eq!(create_incubator_with_address(&mut ctx, 1, 2, Some((k(41), 254))), Err(IncubatorError::InvalidDepositAuthority));
    assert_eq!(ctx.incubator.bump, 255);
    assert_eq!(create_incubator_with_address(&mut ctx, 1, 2, Some((k(40), 254))), Ok(()));
    assert_eq!(ctx.incubator.bump, 1);
}

// reset_incubator

#[test]
fn reset_incubator_opens_the_next_batch() {
    let mut ctx = ResetIncubator { incubator: incubator(IncubatorState::Hatching, 2, 2), authority: k(1) };
    let slots = vec![slot(0, None), slot(1, None), slot(2, Some(k(99)))];
    assert_eq!(reset_incubator(&mut ctx, &slots), Ok(()));
    assert!(ctx.incubator.mints.is_empty());
    assert_eq!(ctx.incubator.current_batch, 5);
    assert_eq!(ctx.incubator.state, IncubatorState::Available);
    assert_eq!(ctx.incubator.slots, keys(50, 2));
}

#[test]
fn reset_incubator_refusals() {
    let slots = vec![slot(0, None), slot(1, Some(k(100)))];
    let mut ctx = ResetIncubator { incubator: incubator(IncubatorState::Hatching, 2, 2), authority: k(9) };
    assert_eq!(reset_incubator(&mut ctx, &slots), Err(IncubatorError::InvalidAuthority));
    let mut ctx = ResetIncubator { incubator: incubator(IncubatorState::Available, 2, 2), authority: k(1) };
    assert_eq!(reset_incubator(&mut ctx, &slots), Err(IncubatorError::InvalidIncubatorState));
    let mut ctx = ResetIncubator { incubator: incubator(IncubatorState::Hatching, 2, 2), authority: k(1) };
    assert_eq!(reset_incubator(&mut ctx, &slots), Err(IncubatorError::InvalidResetUnhatchedSlots));
    assert_eq!(ctx.incubator.mints.len(), 2);
    assert_eq!(ctx.incubator.current_batch, 4);
    assert_eq!(ctx.incubator.state, IncubatorState::Hatching);
}

// update_incubator_state

#[test]
fn update_incubator_state_by_authority_only() {
    let mut ctx = UpdateIncubatorState { incubator: incubator(IncubatorState::Available, 0, 1), authority: k(9) };
    assert_eq!(update_incubator_state(&mut ctx, IncubatorState::Paused), Err(IncubatorError::InvalidAuthority));
    assert_eq!(ctx.incubator.state, IncubatorState::Available);
    ctx.authority = k(1);
    assert_eq!(update_incubator_state(&mut ctx, IncubatorState::Paused), Ok(()));
    assert_eq!(ctx.incubator.state, IncubatorState::Paused);
}

// create_slot

#[test]
fn create_slot_numbers_slots_in_order() {
    let mut ctx = CreateSlot {
        incubator: incubator(IncubatorState::Available, 0, 0),
        incubator_key: k(3),
        slot: slot(77, Some(k(99))),
        slot_key: k(60),
        authority: k(1),
    };
    assert_eq!(create_slot(&mut ctx, 201, 0), Ok(()));
    assert_eq!(ctx.incubator.slots, vec![k(60)]);
    assert_eq!(ctx.slot, Slot { authority: k(1), incubator: k(3), bump: 201, index: 0, mint: Some(k(99)) });
    ctx.slot_key = k(61);
    assert_eq!(create_slot(&mut ctx, 202, 0), Err(IncubatorError::InvalidSlotIndex));
    assert_eq!(create_slot(&mut ctx, 202, 1), Ok(()));
    assert_eq!(ctx.incubator.slots, vec![k(60), k(61)]);
    assert_eq!(ctx.slot.index, 1);
}

#[test]
fn create_slot_index_wraps_after_255() {
    let mut ctx = CreateSlot {
        incubator: incubator(IncubatorState::Available, 0, 256),
        incubator_key: k(3),
        slot: slot(0, None),
        slot_key: k(60),
        authority: k(1),
    };
    assert_eq!(create_slot(&mut ctx, 201, 0), Ok(()));
    assert_eq!(ctx.incubator.slots.len(), 257);
}

#[test]
fn create_slot_by_authority_only() {
    let mut ctx = CreateSlot {
        incubator: incubator(IncubatorState::Available, 0, 0),
        incubator_key: k(3),
        slot: slot(0, None),
        slot_key: k(60),
        authority: k(2),
    };
    assert_eq!(create_slot(&mut ctx, 201, 0), Err(IncubatorError::InvalidAuthority));
    assert!(ctx.incubator.slots.is_empty());
}

// create_draggos_metadata

#[test]
fn create_draggos_metadata_records_the_uri() {
    let mut ctx = CreateDraggosMetadata {
        authority: k(1),
        incubator: incubator(IncubatorState::Available, 0, 0),
        draggos_metadata_account: draggo(k(0), false),
        mint: k(70),
    };
    assert_eq!(create_draggos_metadata(&mut ctx, 9, "uri".to_string()), Ok(()));
    assert_eq!(ctx.draggos_metadata_account.uri, "uri");
    assert_eq!(ctx.draggos_metadata_account.mint, k(70));
    assert_eq!(ctx.draggos_metadata_account.bump, 9);
    assert_eq!(ctx.draggos_metadata_account.authority, k(1));
    assert!(!ctx.draggos_metadata_account.hatched);
    ctx.authority = k(5);
    assert_eq!(create_draggos_metadata(&mut ctx, 8, "other".to_string()), Err(IncubatorError::InvalidAuthority));
    assert_eq!(ctx.draggos_metadata_account.uri, "uri");
    assert_eq!(ctx.draggos_metadata_account.bump, 9);
}

// deposit_incubator

fn deposit_ctx(state: IncubatorState, mints: usize, slots: usize, mint: Pubkey) -> DepositIncubator {
    DepositIncubator { authority: k(2), incubator: incubator(state, mints, slots), slot: slot(0, None), mint }
}

#[test]
fn deposit_incubator_fills_a_slot() {
    let mut ctx = deposit_ctx(IncubatorState::Available, 1, 3, k(70));
    assert_eq!(deposit_incubator(&mut ctx, 1_700_000_000), Ok(DepositEvent { mint: k(70), date: 1_700_000_000 }));
    assert_eq!(ctx.slot.mint, Some(k(70)));
    assert_eq!(ctx.incubator.mints, vec![k(100), k(70)]);
    assert_eq!(ctx.incubator.state, IncubatorState::Available);
}

#[test]
fn deposit_incubator_into_last_slot_starts_hatching() {
    let mut ctx = deposit_ctx(IncubatorState::Available, 2, 3, k(70));
    assert!(deposit_incubator(&mut ctx, 5).is_ok());
    assert_eq!(ctx.incubator.state, IncubatorState::Hatching);
    ctx.mint = k(71);
    assert_eq!(deposit_incubator(&mut ctx, 6), Err(IncubatorError::IncubatorFull));
}

#[test]
fn deposit_incubator_refusals() {
    let mut ctx = deposit_ctx(IncubatorState::Available, 1, 3, k(70));
    ctx.authority = k(1);
    assert_eq!(deposit_incubator(&mut ctx, 0), Err(IncubatorError::InvalidDepositAuthority));
    let mut ctx = deposit_ctx(IncubatorState::Available, 3, 3, k(70));
    assert_eq!(deposit_incubator(&mut ctx, 0), Err(IncubatorError::IncubatorFull));
    let mut ctx = deposit_ctx(IncubatorState::Paused, 1, 3, k(70));
    assert_eq!(deposit_incubator(&mut ctx, 0), Err(IncubatorError::InvalidIncubatorState));
    let mut ctx = deposit_ctx(IncubatorState::Available, 2, 3, k(101));
    assert_eq!(deposit_incubator(&mut ctx, 0), Err(IncubatorError::InIncubator));
    assert_eq!(ctx.incubator.mints, keys(100, 2));
    assert_eq!(ctx.slot.mint, None);
}

#[test]
fn deposit_incubator_same_mint_twice_is_refused() {
    let mut ctx = deposit_ctx(IncubatorState::Available, 0, 3, k(70));
    assert!(deposit_incubator(&mut ctx, 1).is_ok());
    assert_eq!(deposit_incubator(&mut ctx, 2), Err(IncubatorError::InIncubator));
    assert_eq!(ctx.incubator.mints, vec![k(70)]);
}

// hatch_incubator

#[test]
fn hatch_incubator_marks_the_draggo_and_empties_the_slot() {
    let mint = k(100);
    let mut ctx = hatch_ctx(mint);
    let out = hatch_incubator(&mut ctx, 1_700_000_123).unwrap();
    assert_eq!(out.event, HatchEvent { mint, date: 1_700_000_123, batch: 4 });
    assert!(ctx.draggos_metadata.hatched);
    assert_eq!(ctx.draggos_metadata.hatched_date, 1_700_000_123);
    assert_eq!(ctx.draggos_metadata.hatched_batch, 4);
    assert_eq!(ctx.incubator.hatched_total, 8);
    assert_eq!(ctx.slot.mint, None);
    let update = out.update;
    assert_eq!(update.program_id, token_metadata_program());
    assert_eq!(update.metadata_account, k(20));
    assert_eq!(update.update_authority, k(21));
    assert_eq!(update.new_update_authority, None);
    assert_eq!(update.primary_sale_happened, None);
    assert_eq!(update.is_mutable, None);
    assert_eq!(
        update.signer_seeds,
        vec![b"incubator_v0".to_vec(), b"update_authority".to_vec(), vec![252u8]]
    );
    let data = update.data.unwrap();
    assert_eq!(data.name, "Draggo #1");
    assert_eq!(data.symbol, "DRAG");
    assert_eq!(data.uri, "https://draggos.example/hatched.json");
    assert_eq!(data.seller_fee_basis_points, 500);
    assert_eq!(data.creators, Some(vec![Creator { address: k(8), verified: true, share: 100 }]));
    assert_eq!(data.collection, None);
    assert_eq!(data.uses, None);
}

#[test]
fn hatch_incubator_twice_is_refused() {
    let mut ctx = hatch_ctx(k(100));
    assert!(hatch_incubator(&mut ctx, 1).is_ok());
    ctx.slot.mint = Some(k(100));
    assert_eq!(hatch_incubator(&mut ctx, 2).err(), Some(IncubatorError::AlreadyHatched));
    assert_eq!(ctx.incubator.hatched_total, 8);
}

#[test]
fn hatch_incubator_refusals() {
    let mut ctx = hatch_ctx(k(100));
    ctx.authority = k(9);
    assert_eq!(hatch_incubator(&mut ctx, 1).err(), Some(IncubatorError::InvalidHatchAuthority));
    let mut ctx = hatch_ctx(k(100));
    ctx.slot.mint = None;
    assert_eq!(hatch_incubator(&mut ctx, 1).err(), Some(IncubatorError::InvalidSlotMint));
    let mut ctx = hatch_ctx(k(100));
    ctx.slot.mint = Some(k(101));
    assert_eq!(hatch_incubator(&mut ctx, 1).err(), Some(IncubatorError::InvalidSlotDraggosMetadata));
    let mut ctx = hatch_ctx(k(100));
    ctx.incubator.state = IncubatorState::Available;
    assert_eq!(hatch_incubator(&mut ctx, 1).err(), Some(IncubatorError::IncubatorNotReadyToHatch));
    assert!(!ctx.draggos_metadata.hatched);
    assert_eq!(ctx.slot.mint, Some(k(100)));
    assert_eq!(ctx.incubator.hatched_total, 7);
}

#[test]
fn try_hatch_incubator_stops_on_unreadable_metadata() {
    let mut ctx = hatch_ctx(k(100));
    ctx.token_metadata_owner = k(9);
    assert!(try_hatch_incubator(&mut ctx, 1).is_none());
    assert!(!ctx.draggos_metadata.hatched);
    let mut ctx = hatch_ctx(k(100));
    ctx.token_metadata_data = vec![4, 0, 0];
    assert!(try_hatch_incubator(&mut ctx, 1).is_none());
    let mut ctx = hatch_ctx(k(100));
    ctx.incubator.hatched_total = u16::MAX;
    assert!(try_hatch_incubator(&mut ctx, 1).is_none());
    assert_eq!(ctx.slot.mint, Some(k(100)));
}

#[test]
fn try_hatch_incubator_reports_refusals_and_hatches() {
    let mut ctx = hatch_ctx(k(100));
    ctx.token_metadata_owner = k(9);
    ctx.draggos_metadata.hatched = true;
    assert_eq!(try_hatch_incubator(&mut ctx, 1).unwrap().err(), Some(IncubatorError::AlreadyHatched));
    let mut ctx = hatch_ctx(k(100));
    let out = try_hatch_incubator(&mut ctx, 3).unwrap().unwrap();
    assert_eq!(out.event.date, 3);
    assert!(ctx.draggos_metadata.hatched);
}

// update_metadata_update_authority

#[test]
fn update_metadata_update_authority_hands_over_the_authority() {
    let ctx = UpdateMetadataUpdateAuthority {
        authority: k(1),
        incubator: incubator(IncubatorState::Available, 0, 0),
        current_update_authority: UpdateAuthority { authority: k(1), bump: 249 },
        current_update_authority_key: k(22),
        new_update_authority_key: k(23),
        token_metadata: k(20),
        token_metadata_program: token_metadata_program(),
    };
    let call = update_metadata_update_authority(&ctx).unwrap();
    assert_eq!(call.program_id, token_metadata_program());
    assert_eq!(call.metadata_account, k(20));
    assert_eq!(call.update_authority, k(22));
    assert_eq!(call.new_update_authority, Some(k(23)));
    assert!(call.data.is_none());
    assert_eq!(
        call.signer_seeds,
        vec![b"incubator_v0".to_vec(), b"update_authority".to_vec(), vec![249u8]]
    );
    let other = UpdateMetadataUpdateAuthority { authority: k(2), ..ctx };
    assert_eq!(update_metadata_update_authority(&other).err(), Some(IncubatorError::InvalidAuthority));
}

// revert_candy_machine_authority

#[test]
fn revert_candy_machine_authority_returns_it_to_the_incubator_authority() {
    let ctx = RevertCandyMachineAuthority {
        incubator: incubator(IncubatorState::Available, 0, 0),
        candy_machine: k(40),
        candy_machine_program: k(41),
        update_authority: UpdateAuthority { authority: k(1), bump: 248 },
        authority: k(1),
    };
    let call = revert_candy_machine_authority(&ctx).unwrap();
    assert_eq!(call.program, k(41));
    assert_eq!(call.candy_machine, k(40));
    assert_eq!(call.wallet, k(40));
    assert_eq!(call.authority, k(1));
    assert_eq!(call.new_authority, Some(k(1)));
    assert_eq!(
        call.signer_seeds,
        vec![b"incubator_v0".to_vec(), b"update_authority".to_vec(), vec![248u8]]
    );
    let other = RevertCandyMachineAuthority { authority: k(2), ..ctx };
    assert_eq!(revert_candy_machine_authority(&other).err(), Some(IncubatorError::InvalidAuthority));
}

// errors

#[test]
fn incubator_error_codes_and_messages() {
    assert_eq!(IncubatorError::IncubatorFull.code(), 6000);
    assert_eq!(IncubatorError::IncubatorFull.message(), "This incubator is full");
    assert_eq!(IncubatorError::InvalidResetUnhatchedSlots.code(), 6015);
    assert_eq!(
        IncubatorError::InvalidResetUnhatchedSlots.message(),
        "Cannot reset incubator when slot(s) have not hatched"
    );
    assert_eq!(IncubatorError::IncubatorNotReadyToHatch.code(), 6016);
}

// a whole batch

#[test]
fn a_batch_fills_hatches_and_resets() {
    let mut inc = incubator(IncubatorState::Available, 0, 2);
    let mut slots = vec![slot(0, None), slot(1, None)];
    for (i, mint) in [k(70), k(71)].iter().enumerate() {
        let mut ctx = DepositIncubator { authority: k(2), incubator: inc, slot: slots[i], mint: *mint };
        assert!(deposit_incubator(&mut ctx, 10).is_ok());
        inc = ctx.incubator;
        slots[i] = ctx.slot;
    }
    assert_eq!(inc.state, IncubatorState::Hatching);
    for i in 0..2 {
        let mint = slots[i].mint.unwrap();
        let mut ctx = hatch_ctx(mint);
        ctx.incubator = inc;
        ctx.slot = slots[i];
        assert!(hatch_incubator(&mut ctx, 20).is_ok());
        inc = ctx.incubator;
        slots[i] = ctx.slot;
    }
    assert_eq!(inc.hatched_total, 9);
    let mut ctx = ResetIncubator { incubator: inc, authority: k(1) };
    assert_eq!(reset_incubator(&mut ctx, &slots), Ok(()));
    assert_eq!(ctx.incubator.state, IncubatorState::Available);
    assert!(ctx.incubator.mints.is_empty());
    assert_eq!(ctx.incubator.current_batch, 5);
}

#[test]
fn try_reset_incubator_stops_at_the_last_batch() {
    let mut ctx = ResetIncubator { incubator: incubator(IncubatorState::Hatching, 2, 2), authority: k(1) };
    ctx.incubator.current_batch = u16::MAX;
    let slots = vec![slot(0, None), slot(1, None)];
    assert_eq!(incubator::incubator::try_reset_incubator(&mut ctx, &slots), None);
    assert_eq!(ctx.incubator.mints.len(), 2);
    ctx.authority = k(9);
    assert_eq!(
        incubator::incubator::try_reset_incubator(&mut ctx, &slots),
        Some(Err(IncubatorError::InvalidAuthority))
    );
    ctx.authority = k(1);
    ctx.incubator.current_batch = 1;
    assert_eq!(incubator::incubator::try_reset_incubator(&mut ctx, &slots), Some(Ok(())));
    assert_eq!(ctx.incubator.current_batch, 2);
}

#[test]
fn token_metadata_program_id_bytes() {
    assert_eq!(
        mpl_token_metadata::id().to_bytes(),
        [
            11, 112, 101, 177, 227, 209, 124, 69, 56, 157, 82, 127, 107, 4, 195, 205, 88, 184, 108,
            115, 26, 160, 253, 181, 73, 182, 209, 188, 3, 248, 41, 70
        ]
    );
}

#[test]
fn created_slots_are_indexed_by_their_position() {
    let mut store: std::collections::HashMap<Pubkey, Slot> = std::collections::HashMap::new();
    let mut inc = incubator(IncubatorState::Available, 0, 0);
    for (n, key) in [k(60), k(61), k(62)].iter().enumerate() {
        let mut ctx = CreateSlot { incubator: inc, incubator_key: k(3), slot: slot(0, None), slot_key: *key, authority: k(1) };
        assert_eq!(create_slot(&mut ctx, 200, n as u8), Ok(()));
        store.insert(*key, ctx.slot);
        inc = ctx.incubator;
    }
    let mut ctx = CreateSlot { incubator: inc, incubator_key: k(3), slot: slot(0, None), slot_key: k(63), authority: k(1) };
    assert_eq!(create_slot(&mut ctx, 200, 7), Err(IncubatorError::InvalidSlotIndex));
    for (j, key) in ctx.incubator.slots.iter().enumerate() {
        assert_eq!(store[key].index as usize, j);
    }
}
