//! Transaction-validation predicate for a two-party escrow held as a typed
//! record on a transaction: creation, release on an attested settlement, and
//! refund after a timeout.

pub mod locate;
pub mod mac;
pub mod model;
pub mod validate;

pub use locate::find_escrow;
pub use mac::hmac_sha256;

pub use model::{AssetRequest, Attestation, Escrow, EscrowState, EscrowWitness};

pub use validate::{check_release, evaluate, validate_create, validate_refund, validate_release};
