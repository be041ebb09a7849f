//! The escrow's transition rules, and the dispatch on the witness.
//!
//! A transaction's records arrive already decoded: one entry per record that
//! belongs to this application, `Some` where it decoded as an escrow. The
//! first escrow among the inputs is the one consumed, the first among the
//! outputs the one produced.
use vstd::prelude::*;
use vstd::string::StringExecFns;

use crate::locate::{find_escrow, first_escrow};
use crate::mac::{hmac_sha256, mac_hex};
use crate::model::{Attestation, Escrow, EscrowState, EscrowWitness};

verus! {

/// Creation: the produced escrow is locked, holds a positive amount, and names
/// two distinct, non-empty parties.
pub open spec fn create_ok(outs: Seq<Option<Escrow>>) -> bool {
    match first_escrow(outs) {
        Some(e) => {
            &&& e.state == EscrowState::Locked
            &&& e.amount > 0
            &&& e.buyer@.len() > 0
            &&& e.seller@.len() > 0
            &&& e.buyer@ != e.seller@
        },
        None => false,
    }
}

/// Whether the first escrow of `outs` is in `state` and holds `amount`.
pub open spec fn produces(outs: Seq<Option<Escrow>>, state: EscrowState, amount: u64) -> bool {
    match first_escrow(outs) {
        Some(o) => o.state == state && o.amount == amount,
        None => false,
    }
}

/// Whether the first escrow of `ins` is locked.
pub open spec fn consumes_locked(ins: Seq<Option<Escrow>>) -> bool {
    match first_escrow(ins) {
        Some(e) => e.state == EscrowState::Locked,
        None => false,
    }
}

/// Release, given whether the attestation's signature checked out: a locked
/// escrow becomes a released one with the same amount.
pub open spec fn release_rule(ins: Seq<Option<Escrow>>, outs: Seq<Option<Escrow>>, signature_ok: bool) -> bool {
    &&& consumes_locked(ins)
    &&& signature_ok
    &&& produces(outs, EscrowState::Released, first_escrow(ins)->Some_0.amount)
}

/// The text that an attestation's signature authenticates: `"{escrow_id}:{tx_hash}"`.
pub open spec fn attestation_message(att: Attestation) -> Seq<char> {
    att.escrow_id@ + seq![':'] + att.tx_hash@
}

/// Whether the attestation's signature is the MAC of its message under its signer.
pub open spec fn signature_valid(att: Attestation) -> bool {
    att.signature@ == mac_hex(att.signer@, attestation_message(att))
}

/// Release: a locked escrow becomes a released one with the same amount, on a
/// valid attestation.
pub open spec fn release_ok(ins: Seq<Option<Escrow>>, outs: Seq<Option<Escrow>>, att: Attestation) -> bool {
    release_rule(ins, outs, signature_valid(att))
}

/// Refund: a locked escrow whose timeout has been reached becomes a refunded
/// one with the same amount.
pub open spec fn refund_ok(ins: Seq<Option<Escrow>>, outs: Seq<Option<Escrow>>, current_block: u64) -> bool {
    &&& consumes_locked(ins)
    &&& current_block >= first_escrow(ins)->Some_0.timeout
    &&& produces(outs, EscrowState::Refunded, first_escrow(ins)->Some_0.amount)
}

/// The verdict on a transaction: a witness that did not decode rejects it.
pub open spec fn verdict(
    witness: Option<EscrowWitness>,
    ins: Seq<Option<Escrow>>,
    outs: Seq<Option<Escrow>>,
) -> bool {
    match witness {
        None => false,
        Some(EscrowWitness::Create) => create_ok(outs),
        Some(EscrowWitness::Release { attestation }) => release_ok(ins, outs, attestation),
        Some(EscrowWitness::Refund { current_block }) => refund_ok(ins, outs, current_block),
    }
}

/// Whether `out` is the first escrow found, in `state`, holding `amount`.
fn produced(out: Option<&Escrow>, state: EscrowState, amount: u64) -> (r: bool)
    ensures
        r == match out {
            Some(o) => o.state == state && o.amount == amount,
            None => false,
        },
{
    match out {
        Some(o) => o.state == state && o.amount == amount,
        None => false,
    }
}

/// Checks a creation against the transaction's outputs.
pub fn validate_create(outs: &Vec<Option<Escrow>>) -> (r: bool)
    ensures
        r == create_ok(outs@),
{
    let escrow = match find_escrow(outs) {
        Some(e) => e,
        None => {
            return false;
        },
    };
    if escrow.state != EscrowState::Locked {
        return false;
    }
    if escrow.amount == 0 {
        return false;
    }
    if escrow.buyer.as_str().is_empty() || escrow.seller.as_str().is_empty() {
        return false;
    }
    if escrow.buyer == escrow.seller {
        return false;
    }
    true
}

/// Checks a release, given the signature that the attestation should carry.
pub fn check_release(
    ins: &Vec<Option<Escrow>>,
    outs: &Vec<Option<Escrow>>,
    attestation: &Attestation,
    expected_signature: &String,
) -> (r: bool)
    ensures
        r == release_rule(ins@, outs@, attestation.signature@ == expected_signature@),
{
    let escrow = match find_escrow(ins) {
        Some(e) => e,
        None => {
            return false;
        },
    };
    if escrow.state != EscrowState::Locked {
        return false;
    }
    if attestation.signature != *expected_signature {
        return false;
    }
    produced(find_escrow(outs), EscrowState::Released, escrow.amount)
}

/// `"{escrow_id}:{tx_hash}"` of an attestation.
fn message_of(attestation: &Attestation) -> (r: String)
    ensures
        r@ == attestation_message(*attestation),
{
    let mut msg = attestation.escrow_id.clone();
    msg.append(":");
    msg.append(attestation.tx_hash.as_str());
    proof {
        reveal_strlit(":");
    }
    msg
}

/// Checks a release: the MAC of the attestation's message under its signer
/// must equal its signature.
pub fn validate_release(
    ins: &Vec<Option<Escrow>>,
    outs: &Vec<Option<Escrow>>,
    attestation: &Attestation,
) -> (r: bool)
    ensures
        r == release_ok(ins@, outs@, *attestation),
{
    let msg = message_of(attestation);
    let expected = hmac_sha256(attestation.signer.as_str(), msg.as_str());
    check_release(ins, outs, attestation, &expected)
}

/// Checks a refund at block height `current_block`.
pub fn validate_refund(
    ins: &Vec<Option<Escrow>>,
    outs: &Vec<Option<Escrow>>,
    current_block: u64,
) -> (r: bool)
    ensures
        r == refund_ok(ins@, outs@, current_block),
{
    let escrow = match find_escrow(ins) {
        Some(e) => e,
        None => {
            return false;
        },
    };
    if escrow.state != EscrowState::Locked {
        return false;
    }
    if current_block < escrow.timeout {
        return false;
    }
    produced(find_escrow(outs), EscrowState::Refunded, escrow.amount)
}

/// A release that is accepted is rejected once any one character of the
/// attestation's signature is changed, all else kept.
pub proof fn lemma_release_rejects_altered_signature(
    ins: Seq<Option<Escrow>>,
    outs: Seq<Option<Escrow>>,
    att: Attestation,
    forged: Attestation,
    j: int,
    c: char,
)
    requires
        release_ok(ins, outs, att),
        forged.escrow_id@ == att.escrow_id@,
        forged.tx_hash@ == att.tx_hash@,
        forged.signer@ == att.signer@,
        0 <= j < att.signature@.len(),
        c != att.signature@[j],
        forged.signature@ == att.signature@.update(j, c),
    ensures
        !release_ok(ins, outs, forged),
{
    assert(attestation_message(forged) == attestation_message(att));
    assert(forged.signature@[j] != att.signature@[j]);
}

/// A refund is owed from the timeout's block on, and not one block before:
/// with a locked input and a refunded output of the same amount, it is
/// accepted at `timeout` and rejected at `timeout - 1`.
pub proof fn lemma_refund_timeout_boundary(ins: Seq<Option<Escrow>>, outs: Seq<Option<Escrow>>)
    requires
        consumes_locked(ins),
        produces(outs, EscrowState::Refunded, first_escrow(ins)->Some_0.amount),
        first_escrow(ins)->Some_0.timeout > 0,
    ensures
        refund_ok(ins, outs, first_escrow(ins)->Some_0.timeout),
        !refund_ok(ins, outs, (first_escrow(ins)->Some_0.timeout - 1) as u64),
{
}

/// Decides a transaction from its decoded witness (`None` where the witness did
/// not decode) and its decoded input and output records.
pub fn evaluate(
    witness: &Option<EscrowWitness>,
    ins: &Vec<Option<Escrow>>,
    outs: &Vec<Option<Escrow>>,
) -> (r: bool)
    ensures
        r == verdict(*witness, ins@, outs@),
{
    match witness {
        None => false,
        Some(EscrowWitness::Create) => validate_create(outs),
        Some(EscrowWitness::Release { attestation }) => validate_release(ins, outs, attestation),
        Some(EscrowWitness::Refund { current_block }) => validate_refund(ins, outs, *current_block),
    }
}

} // verus!
