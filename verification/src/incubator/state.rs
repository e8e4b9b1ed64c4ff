use vstd::prelude::*;
use crate::key::Pubkey;

verus! {

/// Where an incubator stands in its deposit / hatch cycle.
#[derive(Clone, Copy, Debug, PartialEq, Eq, Structural)]
pub enum IncubatorState {
    Available,
    Hatching,
    Paused,
}

/// The incubator account: its authorities, counters, state, the mints
/// deposited in the current batch and the keys of its slots.
#[derive(Debug)]
pub struct Incubator {
    pub authority: Pubkey,
    pub deposit_authority: Pubkey,
    pub bump: u8,
    pub current_batch: u16,
    pub hatched_total: u16,
    pub state: IncubatorState,
    pub mints: Vec<Pubkey>,
    pub slots: Vec<Pubkey>,
}

/// The incubator account as a mathematical value.
pub struct IncubatorView {
    pub authority: Pubkey,
    pub deposit_authority: Pubkey,
    pub bump: u8,
    pub current_batch: u16,
    pub hatched_total: u16,
    pub state: IncubatorState,
    pub mints: Seq<Pubkey>,
    pub slots: Seq<Pubkey>,
}

impl IncubatorView {
    /// No mint is deposited twice, and there are no more mints than slots.
    pub open spec fn well_formed(self) -> bool {
        &&& self.mints.no_duplicates()
        &&& self.mints.len() <= self.slots.len()
    }
}

impl View for Incubator {
    type V = IncubatorView;

    open spec fn view(&self) -> IncubatorView {
        IncubatorView {
            authority: self.authority,
            deposit_authority: self.deposit_authority,
            bump: self.bump,
            current_batch: self.current_batch,
            hatched_total: self.hatched_total,
            state: self.state,
            mints: self.mints@,
            slots: self.slots@,
        }
    }
}

/// The incubator's own record of one Draggo: its mint, the metadata uri it
/// takes on when it hatches, and whether, when and in which batch it hatched.
#[derive(Debug)]
pub struct DraggosMetadata {
    pub authority: Pubkey,
    pub mint: Pubkey,
    pub bump: u8,
    pub hatched: bool,
    pub hatched_date: i64,
    pub hatched_batch: u16,
    pub uri: String,
}

/// The Draggo record as a mathematical value.
pub struct DraggosMetadataView {
    pub authority: Pubkey,
    pub mint: Pubkey,
    pub bump: u8,
    pub hatched: bool,
    pub hatched_date: i64,
    pub hatched_batch: u16,
    pub uri: Seq<char>,
}

impl View for DraggosMetadata {
    type V = DraggosMetadataView;

    open spec fn view(&self) -> DraggosMetadataView {
        DraggosMetadataView {
            authority: self.authority,
            mint: self.mint,
            bump: self.bump,
            hatched: self.hatched,
            hatched_date: self.hatched_date,
            hatched_batch: self.hatched_batch,
            uri: self.uri@,
        }
    }
}

/// One slot of the incubator, holding at most one deposited mint.
#[derive(Clone, Copy, Debug, PartialEq, Eq)]
pub struct Slot {
    pub authority: Pubkey,
    pub incubator: Pubkey,
    pub bump: u8,
    pub index: u8,
    pub mint: Option<Pubkey>,
}

/// The address that holds the metadata update authority of the Draggos.
#[derive(Clone, Copy, Debug, PartialEq, Eq)]
pub struct UpdateAuthority {
    pub authority: Pubkey,
    pub bump: u8,
}

/// Why an incubator instruction is refused.
#[derive(Clone, Copy, Debug, PartialEq, Eq, Structural)]
pub enum IncubatorError {
    IncubatorFull,
    MetadataAccountNotFound,
    DraggosMetadataAccountNotFound,
    AlreadyHatched,
    InvalidSlotMint,
    InvalidUpdateAuthority,
    InvalidAuthority,
    InvalidSlotMetaplexMetadata,
    InvalidSlotDraggosMetadata,
    InIncubator,
    InvalidDepositAuthority,
    InvalidSlotIndex,
    InvalidHatchAuthority,
    InvalidIncubatorState,
    InvalidSlotCountForReset,
    InvalidResetUnhatchedSlots,
    IncubatorNotReadyToHatch,
}

/// The message the program reports with each error.
pub open spec fn error_message(e: IncubatorError) -> Seq<char> {
    match e {
            IncubatorError::IncubatorFull => "This incubator is full"@,
            IncubatorError::MetadataAccountNotFound => "Invalid metadata account"@,
            IncubatorError::DraggosMetadataAccountNotFound => "Invalid draggos metadata account"@,
            IncubatorError::AlreadyHatched => "Draggo has already hatched"@,
            IncubatorError::InvalidSlotMint => "Invalid mint on slot"@,
            IncubatorError::InvalidUpdateAuthority => "Invalid update authority"@,
            IncubatorError::InvalidAuthority => "Invalid authority"@,
            IncubatorError::InvalidSlotMetaplexMetadata => "Invalid metaplex metadata on slot"@,
            IncubatorError::InvalidSlotDraggosMetadata => "Invalid draggos metadata on slot"@,
            IncubatorError::InIncubator => "Already in incubator"@,
            IncubatorError::InvalidDepositAuthority => "Invalid deposit authority"@,
            IncubatorError::InvalidSlotIndex => "Invalid slot index"@,
            IncubatorError::InvalidHatchAuthority => "Invalid hatch authority"@,
            IncubatorError::InvalidIncubatorState => "Invalid incubator state"@,
            IncubatorError::InvalidSlotCountForReset => "Invalid slot count for reset"@,
            IncubatorError::InvalidResetUnhatchedSlots => "Cannot reset incubator when slot(s) have not hatched"@,
            IncubatorError::IncubatorNotReadyToHatch => "Incubator is not ready to hatch"@,
    }
}

/// The program's error code for each error: 6000 and up, in declaration order.
pub open spec fn error_code(e: IncubatorError) -> u32 {
    match e {
            IncubatorError::IncubatorFull => 6000,
            IncubatorError::MetadataAccountNotFound => 6001,
            IncubatorError::DraggosMetadataAccountNotFound => 6002,
            IncubatorError::AlreadyHatched => 6003,
            IncubatorError::InvalidSlotMint => 6004,
            IncubatorError::InvalidUpdateAuthority => 6005,
            IncubatorError::InvalidAuthority => 6006,
            IncubatorError::InvalidSlotMetaplexMetadata => 6007,
            IncubatorError::InvalidSlotDraggosMetadata => 6008,
            IncubatorError::InIncubator => 6009,
            IncubatorError::InvalidDepositAuthority => 6010,
            IncubatorError::InvalidSlotIndex => 6011,
            IncubatorError::InvalidHatchAuthority => 6012,
            IncubatorError::InvalidIncubatorState => 6013,
            IncubatorError::InvalidSlotCountForReset => 6014,
            IncubatorError::InvalidResetUnhatchedSlots => 6015,
            IncubatorError::IncubatorNotReadyToHatch => 6016,
    }
}

impl IncubatorError {
    /// The message the program reports with the error.
    pub fn message(&self) -> (m: &'static str)
        ensures
            m@ == error_message(*self),
    {
        match self {
            IncubatorError::IncubatorFull => "This incubator is full",
            IncubatorError::MetadataAccountNotFound => "Invalid metadata account",
            IncubatorError::DraggosMetadataAccountNotFound => "Invalid draggos metadata account",
            IncubatorError::AlreadyHatched => "Draggo has already hatched",
            IncubatorError::InvalidSlotMint => "Invalid mint on slot",
            IncubatorError::InvalidUpdateAuthority => "Invalid update authority",
            IncubatorError::InvalidAuthority => "Invalid authority",
            IncubatorError::InvalidSlotMetaplexMetadata => "Invalid metaplex metadata on slot",
            IncubatorError::InvalidSlotDraggosMetadata => "Invalid draggos metadata on slot",
            IncubatorError::InIncubator => "Already in incubator",
            IncubatorError::InvalidDepositAuthority => "Invalid deposit authority",
            IncubatorError::InvalidSlotIndex => "Invalid slot index",
            IncubatorError::InvalidHatchAuthority => "Invalid hatch authority",
            IncubatorError::InvalidIncubatorState => "Invalid incubator state",
            IncubatorError::InvalidSlotCountForReset => "Invalid slot count for reset",
            IncubatorError::InvalidResetUnhatchedSlots => "Cannot reset incubator when slot(s) have not hatched",
            IncubatorError::IncubatorNotReadyToHatch => "Incubator is not ready to hatch",
        }
    }

    /// The program's error code for the error.
    pub fn code(&self) -> (c: u32)
        ensures
            c == error_code(*self),
    {
        match self {
            IncubatorError::IncubatorFull => 6000,
            IncubatorError::MetadataAccountNotFound => 6001,
            IncubatorError::DraggosMetadataAccountNotFound => 6002,
            IncubatorError::AlreadyHatched => 6003,
            IncubatorError::InvalidSlotMint => 6004,
            IncubatorError::InvalidUpdateAuthority => 6005,
            IncubatorError::InvalidAuthority => 6006,
            IncubatorError::InvalidSlotMetaplexMetadata => 6007,
            IncubatorError::InvalidSlotDraggosMetadata => 6008,
            IncubatorError::InIncubator => 6009,
            IncubatorError::InvalidDepositAuthority => 6010,
            IncubatorError::InvalidSlotIndex => 6011,
            IncubatorError::InvalidHatchAuthority => 6012,
            IncubatorError::InvalidIncubatorState => 6013,
            IncubatorError::InvalidSlotCountForReset => 6014,
            IncubatorError::InvalidResetUnhatchedSlots => 6015,
            IncubatorError::IncubatorNotReadyToHatch => 6016,
        }
    }
}

/// The event reported when a Draggo is deposited.
#[derive(Clone, Copy, Debug, PartialEq, Eq)]
pub struct DepositEvent {
    pub mint: Pubkey,
    pub date: i64,
}

/// The event reported when a Draggo hatches.
#[derive(Clone, Copy, Debug, PartialEq, Eq)]
pub struct HatchEvent {
    pub mint: Pubkey,
    pub date: i64,
    pub batch: u16,
}

} // verus!
