//! Custodial token-vesting ledger.
//!
//! The library manages the scheduled, partial release of a fixed token
//! allocation to a beneficiary: deterministic derivation of the custody
//! addresses, a release state machine that turns one pending schedule entry
//! into an irreversible transfer, and an allocation splitter that funds a
//! child schedule by deducting from its parent's remaining entries.
//!
//! Every operation is a pure state transition on plain records. Moving the
//! tokens themselves is the job of an outside ledger: an operation that pays
//! out returns a [`state::TransferOrder`] describing the movement, and the
//! caller applies the ledger mutation only after that transfer succeeded.

pub mod addresses;
pub mod admin;
pub mod create;
pub mod errors;
pub mod release;
pub mod split;
pub mod state;
