//! Time-locked recovery of an encrypted two-factor backup secret.
//!
//! An identity registers an opaque, encrypted backup once. Getting it back is a
//! two-step affair: the recovery is initiated, a timelock runs, and only then
//! can the recovery be completed. Completions are counted against a ceiling
//! chosen at registration.
//!
//! The crate holds the rules and the state they act on. Authorization, the
//! clock and durable storage belong to the host: each call is handed what the
//! host established about the invocation, and the host persists the outcome.
//!
//! - [`model`] states the rules as mathematics.
//! - [`contract`] is the state machine that follows them.
//! - [`laws`] proves what holds of any sequence of calls.

pub mod contract;
pub mod error;
pub mod identity;
pub mod laws;
pub mod model;
pub mod record;
pub mod store;

pub use contract::{CompletedRecovery, Config, TtlExtension, TwoFactorBackupContract};
pub use error::RecoveryError;
pub use identity::{Identity, Invocation};
pub use record::{RecoveryData, RecoveryEvent};
pub use store::{DataKey, RecordStore};
