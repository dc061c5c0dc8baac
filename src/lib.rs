//! Profile-picture records for token holders: a holder designates one
//! non-fungible token they own, stored in a record at an address derived
//! from the holder's key, and can later revoke it.
pub mod error;
pub mod instruction;
pub mod state;
pub mod address;
pub mod token;
pub mod processor;
