use incubator::controller::state::{ControllerError, DepositAuthority};
use incubator::controller::{
    create_deposit_authority, deposit_controller, CreateDepositAuthority, DepositController,
};
use incubator::incubator::state::{Incubator, IncubatorError, IncubatorState, Slot};
use incubator::incubator::{deposit_incubator, DepositIncubator};
use incubator::key::Pubkey;

fn k(n: u8) -> Pubkey {
    Pubkey([n; 32])
}

fn slot(index: u8, mint: Option<Pubkey>) -> Slot {
    Slot { authority: k(1), incubator: k(2), bump: 200, index, mint }
}

fn ctx_with(mints: usize, slots: usize) -> DepositController {
    DepositController {
        authority: k(3),
        incubator: Incubator {
            authority: k(1),
            deposit_authority: k(4),
            bump: 255,
            current_batch: 0,
            hatched_total: 0,
            state: IncubatorState::Available,
            mints: (0..mints).map(|i| k(100 + i as u8)).collect(),
            slots: (0..slots).map(|i| k(50 + i as u8)).collect(),
        },
        incubator_program: k(9),
        deposit_authority: DepositAuthority { authority: k(1), bump: 251 },
        deposit_authority_key: k(4),
    }
}

#[test]
fn create_deposit_authority_records_signer_and_bump() {
    let mut ctx = CreateDepositAuthority {
        authority: k(5),
        deposit_authority: DepositAuthority { authority: k(0), bump: 0 },
        deposit_authority_bump: 253,
    };
    assert_eq!(create_deposit_authority(&mut ctx), Ok(()));
    assert_eq!(ctx.deposit_authority, DepositAuthority { authority: k(5), bump: 253 });
}

#[test]
fn deposit_controller_refuses_a_full_incubator() {
    let ctx = ctx_with(2, 2);
    let slots = vec![slot(0, Some(k(100))), slot(1, Some(k(101)))];
    assert_eq!(deposit_controller(&ctx, &slots).err(), Some(ControllerError::IncubatorFull));
}

#[test]
fn deposit_controller_refuses_an_incubator_without_slots() {
    let ctx = ctx_with(0, 0);
    assert_eq!(deposit_controller(&ctx, &vec![]).err(), Some(ControllerError::IncubatorFull));
}

#[test]
fn deposit_controller_picks_the_slot_indexed_by_the_mint_count() {
    let ctx = ctx_with(1, 3);
    let slots = vec![slot(2, None), slot(0, Some(k(100))), slot(1, None), slot(1, None)];
    let call = deposit_controller(&ctx, &slots).unwrap();
    assert_eq!(call.slot_position, 2);
    assert_eq!(call.program, k(9));
    assert_eq!(
        call.signer_seeds,
        vec![b"incubator_v0".to_vec(), b"deposit_authority".to_vec(), vec![251u8]]
    );
}

#[test]
fn deposit_controller_takes_the_first_matching_slot() {
    let ctx = ctx_with(0, 3);
    let slots = vec![slot(0, None), slot(0, None), slot(1, None)];
    assert_eq!(deposit_controller(&ctx, &slots).unwrap().slot_position, 0);
}

#[test]
fn controller_error_code_and_message() {
    assert_eq!(ControllerError::IncubatorFull.code(), 6000);
    assert_eq!(ControllerError::IncubatorFull.message(), "[Controller] This incubator is full");
}

#[test]
fn try_deposit_controller_stops_when_no_slot_has_the_next_index() {
    let ctx = ctx_with(1, 2);
    let slots = vec![slot(0, Some(k(100))), slot(5, None)];
    assert!(incubator::controller::try_deposit_controller(&ctx, &slots).is_none());
    let slots = vec![slot(0, Some(k(100))), slot(1, None)];
    let call = incubator::controller::try_deposit_controller(&ctx, &slots).unwrap().unwrap();
    assert_eq!(call.slot_position, 1);
}

#[test]
fn controller_and_incubator_agree_on_a_full_incubator() {
    let ctx = ctx_with(2, 2);
    let slots = vec![slot(0, Some(k(100))), slot(1, Some(k(101)))];
    assert_eq!(deposit_controller(&ctx, &slots).err(), Some(ControllerError::IncubatorFull));
    let mut deposit = DepositIncubator { authority: k(4), incubator: ctx.incubator, slot: slots[0], mint: k(120) };
    assert_eq!(deposit_incubator(&mut deposit, 0), Err(IncubatorError::IncubatorFull));
}
