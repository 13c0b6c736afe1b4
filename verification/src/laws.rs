//! What holds of the registry as a whole, proved from the operations' own
//! definitions.

pub mod accounting;
pub mod minting;
pub mod registration;
