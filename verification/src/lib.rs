//! Escrow, settlement and reward accrual for metered charging sessions.
//!
//! A provider lists a charger (`registry`) and a consumer opens an account
//! (`accounts`). The consumer funds a session, which puts the payment into
//! an escrow, and the escrow is later released to the provider (`escrow`).
//! Every fourth session that is paid in currency alone earns the consumer a
//! credit, which a later session can redeem for a discount (`reward`).
//! Finished sessions are recorded, and add to the totals of the account
//! (`session`).
//!
//! Records are kept in a `store::RecordStore`, at most one at an address,
//! and the address of a record is derived from what the record is about
//! (`address`). `register_charger` offers the registry behind a single
//! tagged instruction. `laws` holds what is proved of the operations taken
//! together.
//!
//! The library decides and records. It moves no currency and no credits: an
//! operation that calls for a transfer hands back what is to be moved, and
//! an operation that fails has changed nothing.

pub mod accounts;
pub mod address;
pub mod errors;
pub mod escrow;
pub mod identity;
pub mod laws;
pub mod records;
pub mod register_charger;
pub mod registry;
pub mod reward;
pub mod session;
pub mod store;
