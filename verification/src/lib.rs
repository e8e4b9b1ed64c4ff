//! Verified account logic of the Draggos incubator programs: the egg escrow,
//! the incubator with its slots and hatching, and the deposit controller.

pub mod key;
pub mod seeds;
pub mod pda;
pub mod incubator;
pub mod metadata;
pub mod escrow;
pub mod controller;
