use vstd::prelude::*;
use crate::key::Pubkey;

verus! {

/// The controller's deposit authority account: the signer that created it
/// and the bump of its address.
#[derive(Clone, Copy, Debug, PartialEq, Eq)]
pub struct DepositAuthority {
    pub authority: Pubkey,
    pub bump: u8,
}

/// Why a controller instruction is refused.
#[derive(Clone, Copy, Debug, PartialEq, Eq, Structural)]
pub enum ControllerError {
    IncubatorFull,
}

impl ControllerError {
    /// The message the program reports with the error.
    pub fn message(&self) -> (m: &'static str)
        ensures
            m@ == "[Controller] This incubator is full"@,
    {
        match self {
            ControllerError::IncubatorFull => "[Controller] This incubator is full",
        }
    }

    /// The program's error code for the error.
    pub fn code(&self) -> (c: u32)
        ensures
            c == 6000,
    {
        match self {
            ControllerError::IncubatorFull => 6000,
        }
    }
}

} // verus!
