//! # Signal Vault
//!
//! A sealed-bid marketplace primitive for the Tari Ootle: **pay to unlock, verify after expiry**.
//!
//! A signal provider publishes only a commitment, the BLAKE2b digest of payload and nonce: the
//! signal itself never touches the chain while it is tradeable. Buyers pay into a vault and receive
//! an access badge; the provider delivers the payload off-chain to badge holders. Once the reveal
//! epoch is reached, anybody may open the commitment, and from then on the payload is public and
//! permanently bound to the epoch at which it was sealed.
//!
//! That ordering is what the vault buys you:
//!
//! * a buyer cannot be front-run, because the payload is not readable on-chain before expiry;
//! * a provider cannot fabricate a track record afterwards, because the commitment was fixed before
//!   the outcome was known and the hash is checked on reveal;
//! * when the payment resource is a confidential one, the amounts paid and the balance held stay
//!   hidden, so a provider does not publish their own revenue in order to sell: blinded tokens pay
//!   with what is promised of them, and nothing tells what they are worth beyond that.
//!
//! The ledger keeps the tokens and the time. The library keeps the rules: every call takes the
//! current epoch and what the ledger knows of the tokens in hand, and says what is to happen to
//! them. [`state`] holds the mathematical model that the contracts speak of, [`laws`] what each
//! call means, and [`history`] what holds over the whole life of a vault.

pub mod commitment;
pub mod error;
pub mod hash;
pub mod history;
pub mod laws;
pub mod ledger;
pub mod state;
pub mod text;
pub mod vault;

pub use commitment::commitment_of;
pub use error::{PublishError, PurchaseError, RevealError, WithdrawError};
pub use hash::Hash32;
pub use ledger::{Access, Amount, Bucket, Caller, Earnings, ResourceAddress};
pub use vault::{BadgeData, BadgeResource, Event, Publication, SignalVault};
