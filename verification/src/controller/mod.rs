//! The controller program: it owns the deposit authority of the incubator
//! and deposits into the incubator's next free slot.

pub mod state;

use vstd::prelude::*;
use crate::key::Pubkey;
use crate::seeds::{
    seeds_view, deposit_authority_seed, authority_signer_seeds, spec_authority_signer_seeds,
    spec_deposit_authority_seed,
};
use crate::incubator::state::{Incubator, IncubatorView, IncubatorError, Slot};
use crate::incubator::{DepositIncubatorView, deposit_incubator_error};
use self::state::{DepositAuthority, ControllerError};

verus! {

/// The accounts of `deposit_controller`.
#[derive(Debug)]
pub struct DepositController {
    /// The signer.
    pub authority: Pubkey,
    pub incubator: Incubator,
    /// The address of the incubator program.
    pub incubator_program: Pubkey,
    pub deposit_authority: DepositAuthority,
    /// The address of the deposit authority.
    pub deposit_authority_key: Pubkey,
}

/// The slot index the incubator fills next: the number of mints it holds, as
/// a byte.
pub open spec fn next_deposit_index(incubator: IncubatorView) -> u8 {
    (incubator.mints.len() % 256) as u8
}

/// The position of the first of the incubator's slots (among `slots`) whose
/// index is `index`, if any.
pub open spec fn is_first_slot_with_index(slots: Seq<Slot>, count: int, index: u8, position: int) -> bool {
    &&& 0 <= position < count
    &&& slots[position].index == index
    &&& forall|j: int| 0 <= j < position ==> #[trigger] slots[j].index != index
}

/// A `deposit_incubator` instruction of the incubator program, to be invoked
/// with the slot account at `slot_position` among the slot accounts and the
/// given signer seeds.
#[derive(Debug)]
pub struct DepositIncubatorCall {
    pub program: Pubkey,
    pub slot_position: usize,
    pub signer_seeds: Vec<Vec<u8>>,
}

/// The position of the first of the first `count` slots whose index is
/// `index`, if there is one.
pub fn find_slot_with_index(slots: &Vec<Slot>, count: usize, index: u8) -> (found: Option<usize>)
    requires
        count <= slots.len(),
    ensures
        found matches Some(p) ==> is_first_slot_with_index(slots@, count as int, index, p as int),
        found is None ==> forall|j: int| 0 <= j < count ==> #[trigger] slots@[j].index != index,
{
    let mut i: usize = 0;
    while i < count
        invariant
            count <= slots.len(),
            0 <= i <= count,
            forall|j: int| 0 <= j < i ==> #[trigger] slots@[j].index != index,
        decreases count - i,
    {
        if slots[i].index == index {
            return Some(i);
        }
        i = i + 1;
    }
    None
}

/// Whether the incubator has a free slot, so that a deposit goes ahead.
pub open spec fn has_free_slot(incubator: IncubatorView) -> bool {
    incubator.mints.len() < incubator.slots.len()
}

/// Whether one of the incubator's slots (the first `slots.len()` of
/// `slot_accounts`) has the index that the next deposit fills.
pub open spec fn next_slot_present(incubator: IncubatorView, slot_accounts: Seq<Slot>) -> bool {
    exists|i: int| 0 <= i < incubator.slots.len() && #[trigger] slot_accounts[i].index == next_deposit_index(incubator)
}

/// What `deposit_controller` returns.
pub open spec fn deposit_controller_post(
    ctx: DepositController,
    slot_accounts: Seq<Slot>,
    r: Result<DepositIncubatorCall, ControllerError>,
) -> bool {
    &&& r is Err <==> !has_free_slot(ctx.incubator@)
    &&& r matches Err(e) ==> e == ControllerError::IncubatorFull
    &&& r matches Ok(call) ==> {
        &&& call.program == ctx.incubator_program
        &&& is_first_slot_with_index(
            slot_accounts,
            ctx.incubator.slots.len() as int,
            next_deposit_index(ctx.incubator@),
            call.slot_position as int,
        )
        &&& seeds_view(call.signer_seeds@)
            == spec_authority_signer_seeds(spec_deposit_authority_seed(), ctx.deposit_authority.bump)
    }
}

/// Deposits a Draggo into the incubator through the controller's deposit
/// authority. `slot_accounts` are the accounts passed after the named ones,
/// read as slots; the first `incubator.slots.len()` of them are the
/// incubator's slots. Refused when every slot is taken; otherwise returns the
/// deposit to invoke, into the first slot whose index is the number of mints
/// deposited so far.
pub fn deposit_controller(ctx: &DepositController, slot_accounts: &Vec<Slot>) -> (r: Result<DepositIncubatorCall, ControllerError>)
    requires
        ctx.incubator.slots.len() <= slot_accounts.len(),
        has_free_slot(ctx.incubator@) ==> next_slot_present(ctx.incubator@, slot_accounts@),
    ensures
        deposit_controller_post(*ctx, slot_accounts@, r),
{
    let capacity = ctx.incubator.slots.len();
    let next_index = ctx.incubator.mints.len();
    if next_index >= capacity {
        return Err(ControllerError::IncubatorFull);
    }
    let wanted: u8 = (next_index % 256) as u8;
    let found = find_slot_with_index(slot_accounts, capacity, wanted);
    proof {
        if found is None {
            let k = choose|k: int| 0 <= k < capacity && #[trigger] slot_accounts@[k].index == wanted;
            assert(slot_accounts@[k].index != wanted);
        }
    }
    let signer_seeds = authority_signer_seeds(deposit_authority_seed(), ctx.deposit_authority.bump);
    Ok(DepositIncubatorCall {
        program: ctx.incubator_program,
        slot_position: found.unwrap(),
        signer_seeds: signer_seeds,
    })
}

/// `deposit_controller` where the deposit cannot go through: `None` (the
/// instruction aborts) when a slot is free but none of the incubator's slots
/// has the index the next deposit fills.
pub fn try_deposit_controller(ctx: &DepositController, slot_accounts: &Vec<Slot>) -> (r: Option<Result<DepositIncubatorCall, ControllerError>>)
    requires
        ctx.incubator.slots.len() <= slot_accounts.len(),
    ensures
        r is None <==> (has_free_slot(ctx.incubator@) && !next_slot_present(ctx.incubator@, slot_accounts@)),
        r matches Some(res) ==> deposit_controller_post(*ctx, slot_accounts@, res),
{
    let capacity = ctx.incubator.slots.len();
    let next_index = ctx.incubator.mints.len();
    if next_index < capacity {
        let wanted: u8 = (next_index % 256) as u8;
        if find_slot_with_index(slot_accounts, capacity, wanted).is_none() {
            return None;
        }
    }
    Some(deposit_controller(ctx, slot_accounts))
}

/// The accounts of `create_deposit_authority`.
#[derive(Debug)]
pub struct CreateDepositAuthority {
    /// The signer.
    pub authority: Pubkey,
    pub deposit_authority: DepositAuthority,
    /// The bump found for the deposit authority's address when the account
    /// was created.
    pub deposit_authority_bump: u8,
}

/// Records the creator and the bump of the controller's deposit authority.
pub fn create_deposit_authority(ctx: &mut CreateDepositAuthority) -> (r: Result<(), ControllerError>)
    ensures
        r is Ok,
        final(ctx).deposit_authority == (DepositAuthority {
            authority: old(ctx).authority,
            bump: old(ctx).deposit_authority_bump,
        }),
        final(ctx).authority == old(ctx).authority,
        final(ctx).deposit_authority_bump == old(ctx).deposit_authority_bump,
{
    ctx.deposit_authority.bump = ctx.deposit_authority_bump;
    ctx.deposit_authority.authority = ctx.authority;
    Ok(())
}

/// The controller refuses a deposit exactly when the incubator would refuse
/// it as full: with every slot holding a mint, the incubator's own deposit
/// (signed by its deposit authority) is refused as full, and otherwise it is
/// not refused for that reason.
pub proof fn lemma_controller_full_agrees_with_incubator(ctx: DepositController, deposit: DepositIncubatorView)
    requires
        deposit.incubator == ctx.incubator@,
        deposit.authority == deposit.incubator.deposit_authority,
    ensures
        !has_free_slot(ctx.incubator@) <==> deposit_incubator_error(deposit) == Some(IncubatorError::IncubatorFull),
{
}

/// The controller deposits into the slot numbered by the mints deposited so
/// far: on success the chosen slot is one of the incubator's slots and its
/// index is the number of mints in the incubator (as a byte), and no earlier
/// slot has that index; the batch and hatch counters play no part.
pub proof fn lemma_controller_slot_is_mint_count(
    ctx: DepositController,
    slot_accounts: Seq<Slot>,
    call: DepositIncubatorCall,
)
    requires
        deposit_controller_post(ctx, slot_accounts, Ok(call)),
    ensures
        call.slot_position < ctx.incubator.slots.len(),
        slot_accounts[call.slot_position as int].index as int == ctx.incubator.mints.len() % 256,
        forall|j: int| 0 <= j < call.slot_position ==>
            (#[trigger] slot_accounts[j]).index as int != ctx.incubator.mints.len() % 256,
        ctx.incubator.mints.len() < ctx.incubator.slots.len(),
{
}

} // verus!
