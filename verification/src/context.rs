//! What each operation is told about its caller and its record's address.

use vstd::prelude::*;
use crate::identity::Identity;

verus! {

/// The setting of a creation.
#[derive(Clone, Copy, Debug, PartialEq, Eq)]
pub struct InitializeEscrow {
    /// The address under which the new record will be stored.
    pub escrow_key: Identity,
    /// The caller, who funds the escrow.
    pub hirer: Identity,
    pub freelancer: Identity,
    /// Whether the store already holds a record under the job identifier.
    pub record_exists: bool,
}

/// The setting of a release.
#[derive(Clone, Copy, Debug, PartialEq, Eq)]
pub struct ReleasePayment {
    /// The address of the record.
    pub escrow_key: Identity,
    /// The caller.
    pub signer: Identity,
    /// The identity of the platform admin, as the caller supplies it.
    pub platform_admin: Identity,
}

/// The setting of a dispute.
#[derive(Clone, Copy, Debug, PartialEq, Eq)]
pub struct InitiateDispute {
    /// The address of the record.
    pub escrow_key: Identity,
    /// The caller.
    pub signer: Identity,
}

/// The setting of a resolution.
#[derive(Clone, Copy, Debug, PartialEq, Eq)]
pub struct ResolveDispute {
    /// The address of the record.
    pub escrow_key: Identity,
    /// The caller.
    pub signer: Identity,
    /// The identity of the platform admin, as the caller supplies it.
    pub platform_admin: Identity,
}

/// The setting of an emergency refund.
#[derive(Clone, Copy, Debug, PartialEq, Eq)]
pub struct EmergencyRefund {
    /// The address of the record.
    pub escrow_key: Identity,
    /// The caller.
    pub signer: Identity,
    /// The identity of the platform admin, as the caller supplies it.
    pub platform_admin: Identity,
}

} // verus!
