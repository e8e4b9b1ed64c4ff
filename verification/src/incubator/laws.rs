//! What the incubator's instructions keep and what they rule out, across
//! instructions and across calls.

use vstd::prelude::*;
use crate::key::Pubkey;
use super::state::{IncubatorError, IncubatorState, IncubatorView, Slot};
use super::{
    has_unhatched_slot,
    CreateIncubatorView, created_incubator, is_controller_deposit_authority, ResetIncubatorView, reset_incubator_effect,
    CreateSlotView, create_slot_effect, create_slot_error, next_slot_index, DepositIncubatorView,
    deposit_incubator_error, deposit_incubator_effect, HatchIncubatorView, hatch_incubator_error,
    hatch_incubator_effect, reset_incubator_error,
};

verus! {

/// Creating the incubator keeps it well formed.
pub proof fn lemma_create_incubator_keeps_well_formed(ctx: CreateIncubatorView, incubator_bump: u8, update_authority_bump: u8)
    requires
        ctx.incubator.well_formed(),
    ensures
        created_incubator(ctx, incubator_bump, update_authority_bump).incubator.well_formed(),
{
}

/// A reset leaves a well-formed incubator (it holds no mints).
pub proof fn lemma_reset_incubator_well_formed(ctx: ResetIncubatorView)
    ensures
        reset_incubator_effect(ctx).incubator.well_formed(),
{
}

/// Adding a slot keeps the incubator well formed.
pub proof fn lemma_create_slot_keeps_well_formed(ctx: CreateSlotView, bump: u8)
    requires
        ctx.incubator.well_formed(),
    ensures
        create_slot_effect(ctx, bump).incubator.well_formed(),
{
}

/// An accepted deposit keeps the incubator well formed: the mint was not yet
/// in the incubator and a slot was free.
pub proof fn lemma_deposit_keeps_well_formed(ctx: DepositIncubatorView)
    requires
        ctx.incubator.well_formed(),
        deposit_incubator_error(ctx) is None,
    ensures
        deposit_incubator_effect(ctx).incubator.well_formed(),
        deposit_incubator_effect(ctx).incubator.mints.len() == ctx.incubator.mints.len() + 1,
{
    let mints = ctx.incubator.mints;
    let pushed = mints.push(ctx.mint);
    assert forall|i: int, j: int| 0 <= i < pushed.len() && 0 <= j < pushed.len() && i != j
        implies pushed[i] != pushed[j] by {
        if i == mints.len() as int {
            assert(mints[j] == pushed[j]);
        } else if j == mints.len() as int {
            assert(mints[i] == pushed[i]);
        }
    }
}

/// A hatch keeps the incubator well formed.
pub proof fn lemma_hatch_keeps_well_formed(ctx: HatchIncubatorView, now: i64)
    requires
        ctx.incubator.well_formed(),
    ensures
        hatch_incubator_effect(ctx, now).incubator.well_formed(),
{
}

/// A Draggo hatches once: after a hatch, hatching the same Draggo again is
/// refused as already hatched.
pub proof fn lemma_hatch_once(ctx: HatchIncubatorView, now: i64)
    requires
        hatch_incubator_error(ctx) is None,
    ensures
        hatch_incubator_error(hatch_incubator_effect(ctx, now)) == Some(IncubatorError::AlreadyHatched),
{
}

/// A mint is deposited once per batch: after a deposit, depositing the same
/// mint again is refused, whatever slot it is aimed at.
pub proof fn lemma_deposit_once(ctx: DepositIncubatorView, again: DepositIncubatorView)
    requires
        deposit_incubator_error(ctx) is None,
        again.incubator == deposit_incubator_effect(ctx).incubator,
        again.mint == ctx.mint,
    ensures
        deposit_incubator_error(again) is Some,
{
    assert(again.incubator.mints[ctx.incubator.mints.len() as int] == ctx.mint);
}

/// The deposit that takes the last free slot starts the hatching, and no
/// other does: after an accepted deposit the incubator is hatching exactly
/// when every slot holds a mint.
pub proof fn lemma_deposit_starts_hatching(ctx: DepositIncubatorView)
    requires
        deposit_incubator_error(ctx) is None,
    ensures
        (deposit_incubator_effect(ctx).incubator.state == IncubatorState::Hatching)
            <==> deposit_incubator_effect(ctx).incubator.mints.len() == ctx.incubator.slots.len(),
{
}

/// A hatching incubator takes no deposit until it is reset, and a reset
/// opens it again for deposits with no mints held.
pub proof fn lemma_hatching_refuses_deposits(ctx: DepositIncubatorView)
    requires
        ctx.incubator.deposit_authority == ctx.authority,
        ctx.incubator.state == IncubatorState::Hatching,
    ensures
        deposit_incubator_error(ctx) is Some,
{
}

/// After a reset the incubator is open and empty, so any mint may be
/// deposited by the deposit authority into an incubator with a slot.
pub proof fn lemma_reset_opens_deposits(ctx: ResetIncubatorView, deposit: DepositIncubatorView)
    requires
        deposit.incubator == reset_incubator_effect(ctx).incubator,
        deposit.authority == deposit.incubator.deposit_authority,
        deposit.incubator.slots.len() > 0,
    ensures
        deposit_incubator_error(deposit) is None,
{
}

/// Slots are numbered in order of creation: the slot created next takes the
/// number of slots (as a byte) as its index, and the one after it the next
/// number.
pub proof fn lemma_create_slot_indexes(ctx: CreateSlotView, bump: u8)
    requires
        create_slot_error(ctx, next_slot_index(ctx.incubator)) is None,
    ensures
        create_slot_effect(ctx, bump).slot.index == next_slot_index(ctx.incubator),
        next_slot_index(create_slot_effect(ctx, bump).incubator)
            == ((ctx.incubator.slots.len() + 1) % 256) as u8,
{
}

/// An incubator only ever records the controller's deposit authority: after
/// a successful creation, its deposit authority is the address the
/// controller program derives.
pub proof fn lemma_created_incubator_trusts_controller(ctx: CreateIncubatorView, incubator_bump: u8, update_authority_bump: u8)
    requires
        is_controller_deposit_authority(ctx.deposit_authority, ctx.controller_program),
    ensures
        is_controller_deposit_authority(
            created_incubator(ctx, incubator_bump, update_authority_bump).incubator.deposit_authority,
            ctx.controller_program,
        ),
{
}

/// Whether every slot key of the incubator names, in `store` (the slot
/// accounts by address), a slot whose index is the key's position among the
/// incubator's slots.
pub open spec fn slots_indexed_by_position(incubator: IncubatorView, store: Map<Pubkey, Slot>) -> bool {
    forall|j: int| 0 <= j < incubator.slots.len() ==> {
        &&& #[trigger] store.contains_key(incubator.slots[j])
        &&& store[incubator.slots[j]].index == j
    }
}

/// The accounts after `create_slot`, whatever its outcome.
pub open spec fn create_slot_result(ctx: CreateSlotView, bump: u8, index: u8) -> CreateSlotView {
    if create_slot_error(ctx, index) is None {
        create_slot_effect(ctx, bump)
    } else {
        ctx
    }
}

/// The slot accounts by address after `create_slot`, whatever its outcome:
/// a created slot is stored under its key.
pub open spec fn slot_store_after_create(ctx: CreateSlotView, bump: u8, index: u8, store: Map<Pubkey, Slot>) -> Map<Pubkey, Slot> {
    if create_slot_error(ctx, index) is None {
        store.insert(ctx.slot_key, create_slot_effect(ctx, bump).slot)
    } else {
        store
    }
}

/// Slots are numbered by their position: while the incubator has fewer than
/// 256 slots, each named by the key of a slot whose index is its position,
/// a `create_slot` with a fresh key keeps it so, whether it succeeds or is
/// refused.
pub proof fn lemma_create_slot_keeps_slots_indexed(ctx: CreateSlotView, bump: u8, index: u8, store: Map<Pubkey, Slot>)
    requires
        ctx.incubator.slots.len() < 256,
        slots_indexed_by_position(ctx.incubator, store),
        !ctx.incubator.slots.contains(ctx.slot_key),
    ensures
        slots_indexed_by_position(
            create_slot_result(ctx, bump, index).incubator,
            slot_store_after_create(ctx, bump, index, store),
        ),
        create_slot_result(ctx, bump, index).incubator.slots.len() <= 256,
{
    if create_slot_error(ctx, index) is None {
        let post = create_slot_effect(ctx, bump);
        let store2 = store.insert(ctx.slot_key, post.slot);
        let n = ctx.incubator.slots.len() as int;
        assert((n % 256) as u8 == n);
        assert forall|j: int| 0 <= j < post.incubator.slots.len() implies {
            &&& #[trigger] store2.contains_key(post.incubator.slots[j])
            &&& store2[post.incubator.slots[j]].index == j
        } by {
            if j < n {
                assert(post.incubator.slots[j] == ctx.incubator.slots[j]);
                assert(ctx.incubator.slots[j] != ctx.slot_key);
                assert(store.contains_key(ctx.incubator.slots[j]));
            } else {
                assert(post.incubator.slots[j] == ctx.slot_key);
            }
        }
    }
}

/// Only a hatching incubator hatches, and only for its authority, a Draggo
/// not yet hatched, held by the slot: a hatch that is not refused has the
/// incubator in the hatching state, the incubator's authority as signer, a
/// Draggo that has not hatched, and the slot holding the Draggo's mint.
pub proof fn lemma_hatch_needs_hatching_incubator(ctx: HatchIncubatorView)
    requires
        hatch_incubator_error(ctx) is None,
    ensures
        ctx.incubator.state == IncubatorState::Hatching,
        ctx.incubator.authority == ctx.authority,
        !ctx.draggos_metadata.hatched,
        ctx.slot.mint == Some(ctx.draggos_metadata.mint),
{
}

/// Only a hatching incubator whose slots are all empty is reset, and only by
/// its authority: a reset that is not refused has the incubator hatching,
/// the incubator's authority as signer, and none of the incubator's slots
/// (the first `slots.len()` slot accounts) holding a mint.
pub proof fn lemma_reset_needs_hatched_slots(ctx: ResetIncubatorView, slot_accounts: Seq<Slot>)
    requires
        reset_incubator_error(ctx, slot_accounts) is None,
    ensures
        ctx.incubator.state == IncubatorState::Hatching,
        ctx.incubator.authority == ctx.authority,
        forall|i: int| 0 <= i < ctx.incubator.slots.len() ==> (#[trigger] slot_accounts[i]).mint is None,
{
    assert forall|i: int| 0 <= i < ctx.incubator.slots.len() implies (#[trigger] slot_accounts[i]).mint is None by {
        if slot_accounts[i].mint is Some {
            assert(has_unhatched_slot(slot_accounts, ctx.incubator.slots.len() as int));
        }
    }
}

/// A reset is refused whenever one of the incubator's slots still holds a
/// mint, or the incubator is not hatching.
pub proof fn lemma_reset_refused_with_unhatched_slot(ctx: ResetIncubatorView, slot_accounts: Seq<Slot>, i: int)
    requires
        (0 <= i < ctx.incubator.slots.len() && slot_accounts[i].mint is Some)
            || ctx.incubator.state != IncubatorState::Hatching,
    ensures
        reset_incubator_error(ctx, slot_accounts) is Some,
{
    if ctx.incubator.state == IncubatorState::Hatching && ctx.incubator.authority == ctx.authority {
        assert(has_unhatched_slot(slot_accounts, ctx.incubator.slots.len() as int));
    }
}

} // verus!
