//! Escrow-backed game-session admission.
//!
//! A participant joins a shared game session by paying a fixed entry fee into
//! the session's pooled escrow account and funding the growth of the session's
//! persistent roster record. The registration coordinator guarantees that a
//! participant is never registered twice, that the record's byte size always
//! covers the roster, and that the escrow balance stays at or above the
//! minimum required to keep the record persistent.

pub mod ledger;
pub mod registration;
pub mod session;
