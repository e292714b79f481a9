//! An atomic pay-for-access settlement core: a purchase escrow state machine
//! and a basis-point revenue split, verified over a plain-value model of the
//! surrounding ledger.
//!
//! A buyer deposits a fixed price into a custodial vault and is atomically
//! issued an access credential; the deposit is later partitioned among a
//! platform treasury, a list of collaborators, and the creator, with every
//! rounding remainder accruing to the creator. Balances are modelled as plain
//! `u64` values; the ledger runtime that actually moves funds hands them in
//! and applies the results.

pub mod errors;
pub mod types;
pub mod escrow;
pub mod split;
pub mod distribute;

pub use errors::ProtocolError;
pub use types::{Id32, PaymentMedium, Vault, RecipientAccount};
pub use escrow::{EscrowStatus, EscrowRecord, initialize_escrow, buy_and_mint, cancel_escrow};
pub use split::{Collaborator, SplitConfig, initialize_split};
pub use distribute::DistributionOutcome;
