//! A bridge relay for a cross-chain messaging hub, and the registry of the
//! receipts that confirm what the counterpart chain has seen.
//!
//! The relay reads the fee that the hub currently charges, plans the payment
//! of exactly that fee and the call that hands a payload to the hub under the
//! program's derived signing authority. The registry records each
//! (emitter, sequence) pair at most once, on the strength either of a proof
//! held by the hub or of the administrator's word.
//!
//! Nothing here touches the ledger: every function takes plain values and
//! returns plain values, and the caller carries out what a plan says.

pub mod address;
pub mod bytes;
pub mod error;
pub mod fee;
pub mod posted_vaa;
pub mod registry;
pub mod relay;
