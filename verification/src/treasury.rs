//! Treasury withdrawal: moving collected platform fees out of the treasury
//! sink, authenticated by a deterministically derived treasury authority
//! rather than a human signer.
//!
//! No campaign-level record is touched here. The operation only authorizes
//! and describes the transfer; executing it — and any accounting of
//! cumulative withdrawals — belongs to the external value ledger.

use vstd::prelude::*;
use crate::errors::ErrorCode;
use crate::records::Principal;

verus! {

/// A value sink of the external ledger (a token account).
pub type SinkId = u64;

/// One transfer for the external value ledger to execute: move `amount`
/// from `source` to `dest` under the authority of `authority`.
#[derive(Clone, Copy, Debug, PartialEq, Eq, Structural)]
pub struct TransferRequest {
    /// The sink the value leaves.
    pub source: SinkId,
    /// The sink the value reaches.
    pub dest: SinkId,
    /// The principal that authorizes the movement.
    pub authority: Principal,
    /// The amount moved.
    pub amount: u64,
}

/// The namespace under which the treasury authority is derived.
const TREASURY_NAMESPACE: u64 = 0x7472656173757279;

/// The salt folded into every derived authority.
const AUTHORITY_DERIVATION_SALT: u64 = 0x5f617574686f7269;

/// The deterministic authority-derivation function: the same namespace
/// always yields the same principal.
spec fn spec_derive_authority(namespace: u64) -> Principal {
    namespace ^ AUTHORITY_DERIVATION_SALT
}

/// Derives the principal that controls a protocol-owned namespace; used
/// only internally, never for arbitrary derivation by callers.
fn derive_authority(namespace: u64) -> (r: Principal)
    ensures
        r == spec_derive_authority(namespace),
{
    namespace ^ AUTHORITY_DERIVATION_SALT
}

/// The principal that controls the platform treasury.
pub closed spec fn spec_treasury_authority() -> Principal {
    spec_derive_authority(TREASURY_NAMESPACE)
}

/// Returns the principal that controls the platform treasury.
pub fn treasury_authority() -> (r: Principal)
    ensures
        r == spec_treasury_authority(),
{
    derive_authority(TREASURY_NAMESPACE)
}

/// Authorizes a withdrawal of collected fees from the treasury sink.
///
/// Succeeds exactly when the presented authority is the derived treasury
/// authority, and then describes the single transfer the external ledger
/// must execute; the ledger may still reject it, in which case nothing
/// moves. No record of the voting core is touched either way.
pub fn withdraw_fees(
    authority: Principal,
    treasury_sink: SinkId,
    dest_sink: SinkId,
    amount: u64,
) -> (r: Result<TransferRequest, ErrorCode>)
    ensures
        authority == spec_treasury_authority() ==> r == Ok::<TransferRequest, ErrorCode>(
            TransferRequest { source: treasury_sink, dest: dest_sink, authority, amount },
        ),
        authority != spec_treasury_authority() ==> r == Err::<TransferRequest, ErrorCode>(
            ErrorCode::Unauthorized,
        ),
{
    let derived = treasury_authority();
    if authority != derived {
        return Err(ErrorCode::Unauthorized);
    }
    Ok(TransferRequest { source: treasury_sink, dest: dest_sink, authority, amount })
}

} // verus!
