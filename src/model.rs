use vstd::prelude::*;

verus! {

/// Where an escrow stands in its lifecycle; `Released` and `Refunded` are final.
#[derive(Debug, Clone, Copy, PartialEq, Eq, Structural)]
pub enum EscrowState {
    Locked,
    Released,
    Refunded,
}

/// Cross-chain delivery descriptor; carried along, never interpreted.
#[derive(Debug, Clone)]
pub struct AssetRequest {
    pub chain: String,
    pub contract: String,
    /// A decimal string, so that no precision is lost.
    pub amount: String,
    pub receiver: String,
}

/// The escrow record.
#[derive(Debug, Clone)]
pub struct Escrow {
    pub state: EscrowState,
    pub amount: u64,
    pub buyer: String,
    pub seller: String,
    /// Block height from which a refund is allowed.
    pub timeout: u64,
    pub asset_request: AssetRequest,
}

/// A third party's claim that authorises a release.
#[derive(Debug, Clone)]
pub struct Attestation {
    pub escrow_id: String,
    pub tx_hash: String,
    /// Shared secret that keys the MAC.
    pub signer: String,
    /// Lowercase hex MAC over `"{escrow_id}:{tx_hash}"`, keyed by `signer`.
    pub signature: String,
}

/// The transition that a transaction claims to make.
#[derive(Debug, Clone)]
pub enum EscrowWitness {
    Create,
    Release { attestation: Attestation },
    Refund { current_block: u64 },
}

} // verus!
