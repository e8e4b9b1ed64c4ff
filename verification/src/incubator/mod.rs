//! The incubator program: slots, deposits, hatching and resets.
//!
//! Each instruction takes the accounts it reads and writes as plain values.
//! A refused instruction leaves every account as it was; where an instruction
//! ends in an invocation of another program, it returns that invocation for
//! the caller to perform.

pub mod state;
pub mod laws;

use vstd::prelude::*;
use crate::key::{Pubkey, keys_equal, contains_key};
use crate::seeds::{
    seeds_view, incubator_seed, deposit_authority_seed, update_authority_seed,
    authority_signer_seeds, spec_authority_signer_seeds, spec_incubator_seed,
    spec_deposit_authority_seed, spec_update_authority_seed,
};
use crate::pda::{derived_program_address, try_find_program_address};
use crate::metadata::{
    DataV2, DataV2View, MetadataDataView, UpdateMetadataAccountsCall, data_v2_view,
    decoded_metadata_data, decode_metadata_data, spec_token_metadata_program_id,
    token_metadata_program_id,
};
use self::state::{
    Incubator, IncubatorView, IncubatorState, IncubatorError, DraggosMetadata,
    DraggosMetadataView, Slot, UpdateAuthority, DepositEvent, HatchEvent,
};

verus! {

/// The result of an instruction that writes accounts and returns nothing.
pub open spec fn outcome(error: Option<IncubatorError>) -> Result<(), IncubatorError> {
    match error {
        Some(e) => Err(e),
        None => Ok(()),
    }
}

// ---------------------------------------------------------------------------
// create_incubator

/// The accounts of `create_incubator`.
#[derive(Debug)]
pub struct CreateIncubator {
    pub incubator: Incubator,
    pub update_authority: UpdateAuthority,
    /// The address given as the controller's deposit authority.
    pub deposit_authority: Pubkey,
    /// The address of the controller program.
    pub controller_program: Pubkey,
    /// The signer.
    pub authority: Pubkey,
}

/// The accounts of `CreateIncubator` as mathematical values.
pub struct CreateIncubatorView {
    pub incubator: IncubatorView,
    pub update_authority: UpdateAuthority,
    pub deposit_authority: Pubkey,
    pub controller_program: Pubkey,
    pub authority: Pubkey,
}

impl View for CreateIncubator {
    type V = CreateIncubatorView;

    open spec fn view(&self) -> CreateIncubatorView {
        CreateIncubatorView {
            incubator: self.incubator@,
            update_authority: self.update_authority,
            deposit_authority: self.deposit_authority,
            controller_program: self.controller_program,
            authority: self.authority,
        }
    }
}

/// The seeds of the controller's deposit authority:
/// `[INCUBATOR_SEED, DEPOSIT_AUTHORITY_SEED]`.
pub open spec fn deposit_authority_seeds() -> Seq<Seq<u8>> {
    seq![spec_incubator_seed(), spec_deposit_authority_seed()]
}

/// Whether `key` is the address that the controller program derives for its
/// deposit authority.
pub open spec fn is_controller_deposit_authority(key: Pubkey, controller_program: Pubkey) -> bool {
    derived_program_address(deposit_authority_seeds(), controller_program@) matches Some(found)
        && found.0 == key@
}

/// The accounts after a successful `create_incubator`: the incubator and the
/// update authority take the signer as authority and the given bumps, and the
/// incubator records the deposit authority.
pub open spec fn created_incubator(
    ctx: CreateIncubatorView,
    incubator_bump: u8,
    update_authority_bump: u8,
) -> CreateIncubatorView {
    CreateIncubatorView {
        incubator: IncubatorView {
            bump: incubator_bump,
            authority: ctx.authority,
            deposit_authority: ctx.deposit_authority,
            ..ctx.incubator
        },
        update_authority: UpdateAuthority { bump: update_authority_bump, authority: ctx.authority },
        ..ctx
    }
}

/// `create_incubator` given the controller's deposit-authority address as
/// derived (`None` where no address could be derived).
pub fn create_incubator_with_address(
    ctx: &mut CreateIncubator,
    incubator_bump: u8,
    update_authority_bump: u8,
    derived: Option<(Pubkey, u8)>,
) -> (r: Result<(), IncubatorError>)
    ensures
        r is Ok <==> (derived matches Some(found) && found.0 == old(ctx).deposit_authority),
        r is Err ==> r == Err::<(), IncubatorError>(IncubatorError::InvalidDepositAuthority),
        r is Err ==> final(ctx)@ == old(ctx)@,
        r is Ok ==> final(ctx)@ == created_incubator(old(ctx)@, incubator_bump, update_authority_bump),
{
    let matches = match derived {
        Some(found) => keys_equal(&found.0, &ctx.deposit_authority),
        None => false,
    };
    if !matches {
        return Err(IncubatorError::InvalidDepositAuthority);
    }
    ctx.incubator.bump = incubator_bump;
    ctx.incubator.authority = ctx.authority;
    ctx.incubator.deposit_authority = ctx.deposit_authority;
    ctx.update_authority.bump = update_authority_bump;
    ctx.update_authority.authority = ctx.authority;
    Ok(())
}

/// Sets up the incubator and its update authority, once the given deposit
/// authority is checked to be the address the controller program derives.
pub fn create_incubator(
    ctx: &mut CreateIncubator,
    incubator_bump: u8,
    update_authority_bump: u8,
) -> (r: Result<(), IncubatorError>)
    ensures
        r is Ok <==> is_controller_deposit_authority(old(ctx).deposit_authority, old(ctx).controller_program),
        r is Err ==> r == Err::<(), IncubatorError>(IncubatorError::InvalidDepositAuthority),
        r is Err ==> final(ctx)@ == old(ctx)@,
        r is Ok ==> final(ctx)@ == created_incubator(old(ctx)@, incubator_bump, update_authority_bump),
{
    let mut seeds: Vec<Vec<u8>> = Vec::new();
    seeds.push(incubator_seed());
    seeds.push(deposit_authority_seed());
    assert(seeds_view(seeds@) =~= deposit_authority_seeds());
    let derived = try_find_program_address(&seeds, &ctx.controller_program);
    proof {
        if let Some(found) = derived {
            assert(found.0 == ctx.deposit_authority <==> found.0@ == ctx.deposit_authority@) by {
                if found.0@ == ctx.deposit_authority@ {
                    assert(found.0.0 =~= ctx.deposit_authority.0);
                }
            }
        }
    }
    create_incubator_with_address(ctx, incubator_bump, update_authority_bump, derived)
}

// ---------------------------------------------------------------------------
// reset_incubator

/// The accounts of `reset_incubator`.
#[derive(Debug)]
pub struct ResetIncubator {
    pub incubator: Incubator,
    /// The signer.
    pub authority: Pubkey,
}

/// The accounts of `ResetIncubator` as mathematical values.
pub struct ResetIncubatorView {
    pub incubator: IncubatorView,
    pub authority: Pubkey,
}

impl View for ResetIncubator {
    type V = ResetIncubatorView;

    open spec fn view(&self) -> ResetIncubatorView {
        ResetIncubatorView { incubator: self.incubator@, authority: self.authority }
    }
}

/// Whether one of the first `count` slots still holds a mint.
pub open spec fn has_unhatched_slot(slots: Seq<Slot>, count: int) -> bool {
    exists|i: int| 0 <= i < count && #[trigger] slots[i].mint is Some
}

/// Why `reset_incubator` refuses, if it does. The slots are those of the
/// incubator, in order (the first `slots.len()` of `slot_accounts`).
pub open spec fn reset_incubator_error(ctx: ResetIncubatorView, slot_accounts: Seq<Slot>) -> Option<IncubatorError> {
    if ctx.incubator.authority != ctx.authority {
        Some(IncubatorError::InvalidAuthority)
    } else if ctx.incubator.state != IncubatorState::Hatching {
        Some(IncubatorError::InvalidIncubatorState)
    } else if has_unhatched_slot(slot_accounts, ctx.incubator.slots.len() as int) {
        Some(IncubatorError::InvalidResetUnhatchedSlots)
    } else {
        None
    }
}

/// The accounts after a successful reset: no mints, the next batch, and the
/// incubator open for deposits again.
pub open spec fn reset_incubator_effect(ctx: ResetIncubatorView) -> ResetIncubatorView {
    ResetIncubatorView {
        incubator: IncubatorView {
            mints: Seq::empty(),
            current_batch: (ctx.incubator.current_batch + 1) as u16,
            state: IncubatorState::Available,
            ..ctx.incubator
        },
        ..ctx
    }
}

/// Checks a reset: which error, if any, refuses it.
pub fn check_reset_incubator(ctx: &ResetIncubator, slot_accounts: &Vec<Slot>) -> (e: Option<IncubatorError>)
    requires
        ctx.incubator.slots.len() <= slot_accounts.len(),
    ensures
        e == reset_incubator_error(ctx@, slot_accounts@),
{
    let capacity = ctx.incubator.slots.len();
    // The slot accounts are exactly the first `capacity` ones passed, so the
    // count check of the slots against the capacity always passes.
    if !keys_equal(&ctx.incubator.authority, &ctx.authority) {
        return Some(IncubatorError::InvalidAuthority);
    } else if ctx.incubator.state != IncubatorState::Hatching {
        return Some(IncubatorError::InvalidIncubatorState);
    }
    let mut i: usize = 0;
    while i < capacity
        invariant
            capacity == ctx.incubator.slots.len(),
            capacity <= slot_accounts.len(),
            ctx.incubator.authority == ctx.authority,
            ctx.incubator.state == IncubatorState::Hatching,
            0 <= i <= capacity,
            forall|j: int| 0 <= j < i ==> slot_accounts@[j].mint is None,
        decreases capacity - i,
    {
        if slot_accounts[i].mint.is_some() {
            assert(slot_accounts@[i as int].mint is Some);
            return Some(IncubatorError::InvalidResetUnhatchedSlots);
        }
        i = i + 1;
    }
    None
}

/// Opens a hatched incubator for the next batch. `slot_accounts` are the
/// accounts passed after the named ones, read as slots; the first
/// `incubator.slots.len()` of them are checked for unhatched mints.
pub fn reset_incubator(ctx: &mut ResetIncubator, slot_accounts: &Vec<Slot>) -> (r: Result<(), IncubatorError>)
    requires
        old(ctx).incubator.slots.len() <= slot_accounts.len(),
        reset_incubator_error(old(ctx)@, slot_accounts@) is None ==> old(ctx).incubator.current_batch < u16::MAX,
    ensures
        r == outcome(reset_incubator_error(old(ctx)@, slot_accounts@)),
        r is Err ==> final(ctx)@ == old(ctx)@,
        r is Ok ==> final(ctx)@ == reset_incubator_effect(old(ctx)@),
{
    if let Some(e) = check_reset_incubator(ctx, slot_accounts) {
        return Err(e);
    }
    ctx.incubator.mints = Vec::new();
    ctx.incubator.current_batch = ctx.incubator.current_batch + 1;
    ctx.incubator.state = IncubatorState::Available;
    assert(ctx.incubator.mints@ =~= Seq::<Pubkey>::empty());
    Ok(())
}

/// `reset_incubator` where the reset cannot go through: `None` (the
/// instruction aborts, no account changes) when every check passes but the
/// batch counter is already at its largest value.
pub fn try_reset_incubator(ctx: &mut ResetIncubator, slot_accounts: &Vec<Slot>) -> (r: Option<Result<(), IncubatorError>>)
    requires
        old(ctx).incubator.slots.len() <= slot_accounts.len(),
    ensures
        r is None <==> (reset_incubator_error(old(ctx)@, slot_accounts@) is None
            && old(ctx).incubator.current_batch == u16::MAX),
        r is None ==> final(ctx)@ == old(ctx)@,
        r matches Some(res) ==> {
            &&& res == outcome(reset_incubator_error(old(ctx)@, slot_accounts@))
            &&& res is Err ==> final(ctx)@ == old(ctx)@
            &&& res is Ok ==> final(ctx)@ == reset_incubator_effect(old(ctx)@)
        },
{
    if check_reset_incubator(ctx, slot_accounts).is_none() && ctx.incubator.current_batch == u16::MAX {
        return None;
    }
    Some(reset_incubator(ctx, slot_accounts))
}

// ---------------------------------------------------------------------------
// update_incubator_state

/// The accounts of `update_incubator_state`.
#[derive(Debug)]
pub struct UpdateIncubatorState {
    pub incubator: Incubator,
    /// The signer.
    pub authority: Pubkey,
}

/// The accounts of `UpdateIncubatorState` as mathematical values.
pub struct UpdateIncubatorStateView {
    pub incubator: IncubatorView,
    pub authority: Pubkey,
}

impl View for UpdateIncubatorState {
    type V = UpdateIncubatorStateView;

    open spec fn view(&self) -> UpdateIncubatorStateView {
        UpdateIncubatorStateView { incubator: self.incubator@, authority: self.authority }
    }
}

/// Sets the incubator's state, for its authority only (for instance to pause
/// deposits).
pub fn update_incubator_state(ctx: &mut UpdateIncubatorState, state: IncubatorState) -> (r: Result<(), IncubatorError>)
    ensures
        r is Ok <==> old(ctx).incubator.authority == old(ctx).authority,
        r is Err ==> r == Err::<(), IncubatorError>(IncubatorError::InvalidAuthority),
        r is Err ==> final(ctx)@ == old(ctx)@,
        r is Ok ==> final(ctx)@ == (UpdateIncubatorStateView {
            incubator: IncubatorView { state: state, ..old(ctx)@.incubator },
            ..old(ctx)@
        }),
{
    if !keys_equal(&ctx.incubator.authority, &ctx.authority) {
        return Err(IncubatorError::InvalidAuthority);
    }
    ctx.incubator.state = state;
    Ok(())
}

// ---------------------------------------------------------------------------
// create_slot

/// The accounts of `create_slot`.
#[derive(Debug)]
pub struct CreateSlot {
    pub incubator: Incubator,
    /// The address of the incubator account.
    pub incubator_key: Pubkey,
    pub slot: Slot,
    /// The address of the slot account.
    pub slot_key: Pubkey,
    /// The signer.
    pub authority: Pubkey,
}

/// The accounts of `CreateSlot` as mathematical values.
pub struct CreateSlotView {
    pub incubator: IncubatorView,
    pub incubator_key: Pubkey,
    pub slot: Slot,
    pub slot_key: Pubkey,
    pub authority: Pubkey,
}

impl View for CreateSlot {
    type V = CreateSlotView;

    open spec fn view(&self) -> CreateSlotView {
        CreateSlotView {
            incubator: self.incubator@,
            incubator_key: self.incubator_key,
            slot: self.slot,
            slot_key: self.slot_key,
            authority: self.authority,
        }
    }
}

/// The index the next slot takes: the number of slots, as a byte (so it
/// wraps after 255).
pub open spec fn next_slot_index(incubator: IncubatorView) -> u8 {
    (incubator.slots.len() % 256) as u8
}

/// Why `create_slot` refuses, if it does.
pub open spec fn create_slot_error(ctx: CreateSlotView, index: u8) -> Option<IncubatorError> {
    if ctx.incubator.authority != ctx.authority {
        Some(IncubatorError::InvalidAuthority)
    } else if index != next_slot_index(ctx.incubator) {
        Some(IncubatorError::InvalidSlotIndex)
    } else {
        None
    }
}

/// The accounts after a successful `create_slot`: the slot's key is appended
/// to the incubator's slots and the slot records its index, bump, authority
/// and incubator.
pub open spec fn create_slot_effect(ctx: CreateSlotView, bump: u8) -> CreateSlotView {
    CreateSlotView {
        incubator: IncubatorView { slots: ctx.incubator.slots.push(ctx.slot_key), ..ctx.incubator },
        slot: Slot {
            bump: bump,
            authority: ctx.authority,
            incubator: ctx.incubator_key,
            index: next_slot_index(ctx.incubator),
            ..ctx.slot
        },
        ..ctx
    }
}

/// Adds a slot to the incubator; `index` must be the next slot index.
pub fn create_slot(ctx: &mut CreateSlot, bump: u8, index: u8) -> (r: Result<(), IncubatorError>)
    ensures
        r == outcome(create_slot_error(old(ctx)@, index)),
        r is Err ==> final(ctx)@ == old(ctx)@,
        r is Ok ==> final(ctx)@ == create_slot_effect(old(ctx)@, bump),
{
    let next_index: u8 = (ctx.incubator.slots.len() % 256) as u8;
    if !keys_equal(&ctx.incubator.authority, &ctx.authority) {
        return Err(IncubatorError::InvalidAuthority);
    } else if index != next_index {
        return Err(IncubatorError::InvalidSlotIndex);
    }
    ctx.incubator.slots.push(ctx.slot_key);
    ctx.slot.bump = bump;
    ctx.slot.authority = ctx.authority;
    ctx.slot.incubator = ctx.incubator_key;
    ctx.slot.index = next_index;
    Ok(())
}

// ---------------------------------------------------------------------------
// create_draggos_metadata

/// The accounts of `create_draggos_metadata`.
#[derive(Debug)]
pub struct CreateDraggosMetadata {
    /// The signer.
    pub authority: Pubkey,
    pub incubator: Incubator,
    pub draggos_metadata_account: DraggosMetadata,
    /// The address of the Draggo's mint.
    pub mint: Pubkey,
}

/// The accounts of `CreateDraggosMetadata` as mathematical values.
pub struct CreateDraggosMetadataView {
    pub authority: Pubkey,
    pub incubator: IncubatorView,
    pub draggos_metadata_account: DraggosMetadataView,
    pub mint: Pubkey,
}

impl View for CreateDraggosMetadata {
    type V = CreateDraggosMetadataView;

    open spec fn view(&self) -> CreateDraggosMetadataView {
        CreateDraggosMetadataView {
            authority: self.authority,
            incubator: self.incubator@,
            draggos_metadata_account: self.draggos_metadata_account@,
            mint: self.mint,
        }
    }
}

/// Records the metadata uri a Draggo takes when it hatches, for the
/// incubator's authority only.
pub fn create_draggos_metadata(ctx: &mut CreateDraggosMetadata, bump: u8, uri: String) -> (r: Result<(), IncubatorError>)
    ensures
        r is Ok <==> old(ctx).incubator.authority == old(ctx).authority,
        r is Err ==> r == Err::<(), IncubatorError>(IncubatorError::InvalidAuthority),
        r is Err ==> final(ctx)@ == old(ctx)@,
        r is Ok ==> final(ctx)@ == (CreateDraggosMetadataView {
            draggos_metadata_account: DraggosMetadataView {
                bump: bump,
                uri: uri@,
                authority: old(ctx).authority,
                mint: old(ctx).mint,
                ..old(ctx)@.draggos_metadata_account
            },
            ..old(ctx)@
        }),
{
    if !keys_equal(&ctx.incubator.authority, &ctx.authority) {
        return Err(IncubatorError::InvalidAuthority);
    }
    ctx.draggos_metadata_account.bump = bump;
    ctx.draggos_metadata_account.uri = uri;
    ctx.draggos_metadata_account.authority = ctx.authority;
    ctx.draggos_metadata_account.mint = ctx.mint;
    Ok(())
}

// ---------------------------------------------------------------------------
// deposit_incubator

/// The accounts of `deposit_incubator`.
#[derive(Debug)]
pub struct DepositIncubator {
    /// The signer: the controller's deposit authority.
    pub authority: Pubkey,
    pub incubator: Incubator,
    pub slot: Slot,
    /// The address of the Draggo's mint.
    pub mint: Pubkey,
}

/// The accounts of `DepositIncubator` as mathematical values.
pub struct DepositIncubatorView {
    pub authority: Pubkey,
    pub incubator: IncubatorView,
    pub slot: Slot,
    pub mint: Pubkey,
}

impl View for DepositIncubator {
    type V = DepositIncubatorView;

    open spec fn view(&self) -> DepositIncubatorView {
        DepositIncubatorView {
            authority: self.authority,
            incubator: self.incubator@,
            slot: self.slot,
            mint: self.mint,
        }
    }
}

/// Why `deposit_incubator` refuses, if it does.
pub open spec fn deposit_incubator_error(ctx: DepositIncubatorView) -> Option<IncubatorError> {
    if ctx.incubator.deposit_authority != ctx.authority {
        Some(IncubatorError::InvalidDepositAuthority)
    } else if ctx.incubator.mints.len() >= ctx.incubator.slots.len() {
        Some(IncubatorError::IncubatorFull)
    } else if ctx.incubator.state != IncubatorState::Available {
        Some(IncubatorError::InvalidIncubatorState)
    } else if ctx.incubator.mints.contains(ctx.mint) {
        Some(IncubatorError::InIncubator)
    } else {
        None
    }
}

/// The accounts after a successful deposit: the mint is appended to the
/// incubator's mints and held by the slot, and the incubator starts hatching
/// when every slot is taken.
pub open spec fn deposit_incubator_effect(ctx: DepositIncubatorView) -> DepositIncubatorView {
    let mints = ctx.incubator.mints.push(ctx.mint);
    DepositIncubatorView {
        incubator: IncubatorView {
            mints: mints,
            state: if mints.len() == ctx.incubator.slots.len() {
                IncubatorState::Hatching
            } else {
                ctx.incubator.state
            },
            ..ctx.incubator
        },
        slot: Slot { mint: Some(ctx.mint), ..ctx.slot },
        ..ctx
    }
}

/// Deposits a Draggo's mint into a slot, as the controller's deposit
/// authority. `now` is the cluster's unix timestamp; the event to report is
/// returned.
pub fn deposit_incubator(ctx: &mut DepositIncubator, now: i64) -> (r: Result<DepositEvent, IncubatorError>)
    ensures
        r is Err <==> deposit_incubator_error(old(ctx)@) is Some,
        r matches Err(e) ==> deposit_incubator_error(old(ctx)@) == Some(e),
        r is Err ==> final(ctx)@ == old(ctx)@,
        r is Ok ==> final(ctx)@ == deposit_incubator_effect(old(ctx)@),
        r matches Ok(event) ==> event == (DepositEvent { mint: old(ctx).mint, date: now }),
{
    if !keys_equal(&ctx.incubator.deposit_authority, &ctx.authority) {
        return Err(IncubatorError::InvalidDepositAuthority);
    } else if ctx.incubator.mints.len() >= ctx.incubator.slots.len() {
        return Err(IncubatorError::IncubatorFull);
    } else if ctx.incubator.state != IncubatorState::Available {
        return Err(IncubatorError::InvalidIncubatorState);
    } else if contains_key(&ctx.incubator.mints, &ctx.mint) {
        return Err(IncubatorError::InIncubator);
    }
    ctx.slot.mint = Some(ctx.mint);
    ctx.incubator.mints.push(ctx.mint);
    if ctx.incubator.mints.len() == ctx.incubator.slots.len() {
        ctx.incubator.state = IncubatorState::Hatching;
    }
    Ok(DepositEvent { mint: ctx.mint, date: now })
}

// ---------------------------------------------------------------------------
// update_metadata_update_authority

/// The accounts of `update_metadata_update_authority`.
#[derive(Debug)]
pub struct UpdateMetadataUpdateAuthority {
    /// The signer.
    pub authority: Pubkey,
    pub incubator: Incubator,
    pub current_update_authority: UpdateAuthority,
    /// The address of the current update authority.
    pub current_update_authority_key: Pubkey,
    /// The address of the new update authority.
    pub new_update_authority_key: Pubkey,
    /// The address of the token metadata account.
    pub token_metadata: Pubkey,
    /// The address of the token metadata program.
    pub token_metadata_program: Pubkey,
}

/// Whether `call` moves the metadata update authority of `ctx.token_metadata`
/// from the current update authority to the new one, signed by the current
/// update authority's seeds.
pub open spec fn is_update_authority_transfer(ctx: UpdateMetadataUpdateAuthority, call: UpdateMetadataAccountsCall) -> bool {
    &&& call.program_id == ctx.token_metadata_program
    &&& call.metadata_account == ctx.token_metadata
    &&& call.update_authority == ctx.current_update_authority_key
    &&& call.new_update_authority == Some(ctx.new_update_authority_key)
    &&& call.data is None
    &&& call.primary_sale_happened is None
    &&& call.is_mutable is None
    &&& seeds_view(call.signer_seeds@)
        == spec_authority_signer_seeds(spec_update_authority_seed(), ctx.current_update_authority.bump)
}

/// Hands the update authority of a Draggo's token metadata to a new update
/// authority, for the incubator's authority only. Writes no account; returns
/// the metadata update to invoke.
pub fn update_metadata_update_authority(ctx: &UpdateMetadataUpdateAuthority) -> (r: Result<UpdateMetadataAccountsCall, IncubatorError>)
    ensures
        r is Ok <==> ctx.incubator.authority == ctx.authority,
        r matches Err(e) ==> e == IncubatorError::InvalidAuthority,
        r matches Ok(call) ==> is_update_authority_transfer(*ctx, call),
{
    if !keys_equal(&ctx.incubator.authority, &ctx.authority) {
        return Err(IncubatorError::InvalidAuthority);
    }
    let signer_seeds = authority_signer_seeds(update_authority_seed(), ctx.current_update_authority.bump);
    Ok(UpdateMetadataAccountsCall {
        program_id: ctx.token_metadata_program,
        metadata_account: ctx.token_metadata,
        update_authority: ctx.current_update_authority_key,
        new_update_authority: Some(ctx.new_update_authority_key),
        data: None,
        primary_sale_happened: None,
        is_mutable: None,
        signer_seeds: signer_seeds,
    })
}

// ---------------------------------------------------------------------------
// hatch_incubator

/// The accounts of `hatch_incubator`.
#[derive(Debug)]
pub struct HatchIncubator {
    /// The signer.
    pub authority: Pubkey,
    pub incubator: Incubator,
    pub draggos_metadata: DraggosMetadata,
    /// The address of the Draggo's token metadata account.
    pub token_metadata: Pubkey,
    /// The program that owns the token metadata account.
    pub token_metadata_owner: Pubkey,
    /// The bytes of the token metadata account.
    pub token_metadata_data: Vec<u8>,
    pub update_authority: UpdateAuthority,
    /// The address of the update authority.
    pub update_authority_key: Pubkey,
    pub slot: Slot,
    /// The address of the token metadata program.
    pub token_metadata_program: Pubkey,
}

/// The accounts of `HatchIncubator` as mathematical values.
pub struct HatchIncubatorView {
    pub authority: Pubkey,
    pub incubator: IncubatorView,
    pub draggos_metadata: DraggosMetadataView,
    pub token_metadata: Pubkey,
    pub token_metadata_owner: Pubkey,
    pub token_metadata_data: Seq<u8>,
    pub update_authority: UpdateAuthority,
    pub update_authority_key: Pubkey,
    pub slot: Slot,
    pub token_metadata_program: Pubkey,
}

impl View for HatchIncubator {
    type V = HatchIncubatorView;

    open spec fn view(&self) -> HatchIncubatorView {
        HatchIncubatorView {
            authority: self.authority,
            incubator: self.incubator@,
            draggos_metadata: self.draggos_metadata@,
            token_metadata: self.token_metadata,
            token_metadata_owner: self.token_metadata_owner,
            token_metadata_data: self.token_metadata_data@,
            update_authority: self.update_authority,
            update_authority_key: self.update_authority_key,
            slot: self.slot,
            token_metadata_program: self.token_metadata_program,
        }
    }
}

/// Why `hatch_incubator` refuses, if it does.
pub open spec fn hatch_incubator_error(ctx: HatchIncubatorView) -> Option<IncubatorError> {
    if ctx.draggos_metadata.hatched {
        Some(IncubatorError::AlreadyHatched)
    } else if ctx.incubator.authority != ctx.authority {
        Some(IncubatorError::InvalidHatchAuthority)
    } else if ctx.slot.mint is None {
        Some(IncubatorError::InvalidSlotMint)
    } else if ctx.draggos_metadata.mint != ctx.slot.mint->0 {
        Some(IncubatorError::InvalidSlotDraggosMetadata)
    } else if ctx.incubator.state != IncubatorState::Hatching {
        Some(IncubatorError::IncubatorNotReadyToHatch)
    } else {
        None
    }
}

/// Whether the token metadata account is one of the token metadata program
/// whose bytes decode.
pub open spec fn token_metadata_readable(ctx: HatchIncubatorView) -> bool {
    &&& ctx.token_metadata_owner@ == spec_token_metadata_program_id()
    &&& decoded_metadata_data(ctx.token_metadata_data) is Some
}

/// Whether hatching can go through to its end: the checks pass only where the
/// token metadata is readable and the hatch counter has room.
pub open spec fn hatch_incubator_completes(ctx: HatchIncubatorView) -> bool {
    hatch_incubator_error(ctx) is None ==> {
        &&& token_metadata_readable(ctx)
        &&& ctx.incubator.hatched_total < u16::MAX
    }
}

/// The metadata a Draggo takes when it hatches: its token's name, symbol,
/// royalty and creators with the hatched uri, and no collection or uses.
pub open spec fn hatched_data(md: MetadataDataView, uri: Seq<char>) -> DataV2View {
    DataV2View {
        name: md.name,
        symbol: md.symbol,
        uri: uri,
        seller_fee_basis_points: md.seller_fee_basis_points,
        creators: md.creators,
        collection: None,
        uses: None,
    }
}

/// The accounts after a successful hatch: the Draggo is marked hatched at
/// `now` in the current batch, the incubator counts one more hatch, and the
/// slot is emptied.
pub open spec fn hatch_incubator_effect(ctx: HatchIncubatorView, now: i64) -> HatchIncubatorView {
    HatchIncubatorView {
        draggos_metadata: DraggosMetadataView {
            hatched: true,
            hatched_date: now,
            hatched_batch: ctx.incubator.current_batch,
            ..ctx.draggos_metadata
        },
        incubator: IncubatorView { hatched_total: (ctx.incubator.hatched_total + 1) as u16, ..ctx.incubator },
        slot: Slot { mint: None, ..ctx.slot },
        ..ctx
    }
}

/// What a successful hatch asks of the caller: the metadata update to invoke
/// and the event to report.
#[derive(Debug)]
pub struct HatchIncubatorOutcome {
    pub update: UpdateMetadataAccountsCall,
    pub event: HatchEvent,
}

/// What `hatch_incubator` does, from the accounts before (`pre`) to the
/// accounts after (`post`) and its result.
pub open spec fn hatch_incubator_post(
    pre: HatchIncubatorView,
    post: HatchIncubatorView,
    now: i64,
    r: Result<HatchIncubatorOutcome, IncubatorError>,
) -> bool {
    &&& r is Err <==> hatch_incubator_error(pre) is Some
    &&& r matches Err(e) ==> hatch_incubator_error(pre) == Some(e)
    &&& r is Err ==> post == pre
    &&& r is Ok ==> post == hatch_incubator_effect(pre, now)
    &&& r matches Ok(out) ==> {
        &&& out.event == HatchEvent { mint: pre.slot.mint->0, date: now, batch: pre.incubator.current_batch }
        &&& out.update.program_id == pre.token_metadata_program
        &&& out.update.metadata_account == pre.token_metadata
        &&& out.update.update_authority == pre.update_authority_key
        &&& out.update.new_update_authority is None
        &&& data_v2_view(out.update.data)
            == Some(hatched_data(decoded_metadata_data(pre.token_metadata_data)->0, pre.draggos_metadata.uri))
        &&& out.update.primary_sale_happened is None
        &&& out.update.is_mutable is None
        &&& seeds_view(out.update.signer_seeds@)
            == spec_authority_signer_seeds(spec_update_authority_seed(), pre.update_authority.bump)
    }
}

/// Checks a hatch: which error, if any, refuses it.
pub fn check_hatch_incubator(ctx: &HatchIncubator) -> (e: Option<IncubatorError>)
    ensures
        e == hatch_incubator_error(ctx@),
{
    if ctx.draggos_metadata.hatched {
        return Some(IncubatorError::AlreadyHatched);
    } else if !keys_equal(&ctx.incubator.authority, &ctx.authority) {
        return Some(IncubatorError::InvalidHatchAuthority);
    }
    match ctx.slot.mint {
        None => Some(IncubatorError::InvalidSlotMint),
        Some(slot_mint) => {
            if !keys_equal(&ctx.draggos_metadata.mint, &slot_mint) {
                Some(IncubatorError::InvalidSlotDraggosMetadata)
            } else if ctx.incubator.state != IncubatorState::Hatching {
                Some(IncubatorError::IncubatorNotReadyToHatch)
            } else {
                None
            }
        },
    }
}

/// Hatches the Draggo of a slot once every slot is filled: its token metadata
/// takes the recorded uri, the Draggo is marked hatched at `now` (the
/// cluster's unix timestamp) and the slot is emptied. The caller invokes the
/// returned metadata update and reports the event; if the invocation fails,
/// the whole instruction fails and none of the writes stand.
pub fn hatch_incubator(ctx: &mut HatchIncubator, now: i64) -> (r: Result<HatchIncubatorOutcome, IncubatorError>)
    requires
        hatch_incubator_completes(old(ctx)@),
    ensures
        hatch_incubator_post(old(ctx)@, final(ctx)@, now, r),
{
    if let Some(e) = check_hatch_incubator(ctx) {
        return Err(e);
    }
    let slot_mint = ctx.slot.mint.unwrap();
    let md = decode_metadata_data(&ctx.token_metadata_data).unwrap();
    let data = DataV2 {
        name: md.name,
        symbol: md.symbol,
        uri: ctx.draggos_metadata.uri.clone(),
        seller_fee_basis_points: md.seller_fee_basis_points,
        creators: md.creators,
        collection: None,
        uses: None,
    };
    let signer_seeds = authority_signer_seeds(update_authority_seed(), ctx.update_authority.bump);
    let update = UpdateMetadataAccountsCall {
        program_id: ctx.token_metadata_program,
        metadata_account: ctx.token_metadata,
        update_authority: ctx.update_authority_key,
        new_update_authority: None,
        data: Some(data),
        primary_sale_happened: None,
        is_mutable: None,
        signer_seeds: signer_seeds,
    };
    let batch = ctx.incubator.current_batch;
    ctx.draggos_metadata.hatched = true;
    ctx.draggos_metadata.hatched_date = now;
    ctx.draggos_metadata.hatched_batch = batch;
    ctx.incubator.hatched_total = ctx.incubator.hatched_total + 1;
    ctx.slot.mint = None;
    Ok(HatchIncubatorOutcome { update, event: HatchEvent { mint: slot_mint, date: now, batch } })
}

/// `hatch_incubator` where the hatch cannot go through to its end: `None`
/// (the instruction aborts, no account changes) when the checks pass but the
/// token metadata account is not one of the token metadata program, its
/// bytes do not decode, or the hatch counter is full.
pub fn try_hatch_incubator(ctx: &mut HatchIncubator, now: i64) -> (r: Option<Result<HatchIncubatorOutcome, IncubatorError>>)
    ensures
        r is None <==> !hatch_incubator_completes(old(ctx)@),
        r is None ==> final(ctx)@ == old(ctx)@,
        r matches Some(res) ==> hatch_incubator_post(old(ctx)@, final(ctx)@, now, res),
{
    if check_hatch_incubator(ctx).is_none() {
        let program_id = token_metadata_program_id();
        let owned = keys_equal(&ctx.token_metadata_owner, &program_id);
        proof {
            if ctx.token_metadata_owner@ == spec_token_metadata_program_id() {
                assert(ctx.token_metadata_owner.0 =~= program_id.0);
            }
        }
        let decodes = decode_metadata_data(&ctx.token_metadata_data).is_some();
        if !(owned && decodes && ctx.incubator.hatched_total < u16::MAX) {
            return None;
        }
    }
    Some(hatch_incubator(ctx, now))
}

// ---------------------------------------------------------------------------
// revert_candy_machine_authority

/// The accounts of `revert_candy_machine_authority`.
#[derive(Debug)]
pub struct RevertCandyMachineAuthority {
    pub incubator: Incubator,
    /// The address of the candy machine.
    pub candy_machine: Pubkey,
    /// The address of the candy machine program.
    pub candy_machine_program: Pubkey,
    pub update_authority: UpdateAuthority,
    /// The signer.
    pub authority: Pubkey,
}

/// An `update_authority` instruction of the candy machine program, to be
/// invoked with the given signer seeds.
#[derive(Debug)]
pub struct CandyMachineAuthorityCall {
    pub program: Pubkey,
    pub candy_machine: Pubkey,
    pub authority: Pubkey,
    pub wallet: Pubkey,
    pub new_authority: Option<Pubkey>,
    pub signer_seeds: Vec<Vec<u8>>,
}

/// Hands the candy machine's authority back to the incubator's authority, for
/// that authority only. Writes no account; returns the candy machine update
/// to invoke.
pub fn revert_candy_machine_authority(ctx: &RevertCandyMachineAuthority) -> (r: Result<CandyMachineAuthorityCall, IncubatorError>)
    ensures
        r is Ok <==> ctx.authority == ctx.incubator.authority,
        r matches Err(e) ==> e == IncubatorError::InvalidAuthority,
        r matches Ok(call) ==> {
            &&& call.program == ctx.candy_machine_program
            &&& call.candy_machine == ctx.candy_machine
            &&& call.authority == ctx.authority
            &&& call.wallet == ctx.candy_machine
            &&& call.new_authority == Some(ctx.incubator.authority)
            &&& seeds_view(call.signer_seeds@)
                == spec_authority_signer_seeds(spec_update_authority_seed(), ctx.update_authority.bump)
        },
{
    if !keys_equal(&ctx.authority, &ctx.incubator.authority) {
        return Err(IncubatorError::InvalidAuthority);
    }
    let signer_seeds = authority_signer_seeds(update_authority_seed(), ctx.update_authority.bump);
    Ok(CandyMachineAuthorityCall {
        program: ctx.candy_machine_program,
        candy_machine: ctx.candy_machine,
        authority: ctx.authority,
        wallet: ctx.candy_machine,
        new_authority: Some(ctx.incubator.authority),
        signer_seeds: signer_seeds,
    })
}

} // verus!
