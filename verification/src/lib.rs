//! Verified core logic of the StellarLend protocol: the cross-chain bridge
//! (validator rotation, guardian pauses, inbound value caps), the protocol
//! admin handover rules, the token receiver's request validation, and the
//! vesting contracts.

pub mod bytes;
pub mod text;
pub mod crypto;
pub mod bridge;
pub mod admin;
pub mod token_receiver;
pub mod schedule;
pub mod vesting;
pub mod governance;
