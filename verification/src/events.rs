//! The notifications published after each successful operation.

use vstd::prelude::*;
use crate::identity::Identity;

verus! {

/// A record was created and its funds were placed in custody.
#[derive(Clone, Debug, PartialEq, Eq)]
pub struct EscrowCreated {
    /// The address of the record.
    pub escrow: Identity,
    pub hirer: Identity,
    pub freelancer: Identity,
    pub job_id: String,
    pub amount: u64,
    pub deadline: i64,
}

/// The full amount went to the freelancer.
#[derive(Clone, Copy, Debug, PartialEq, Eq)]
pub struct PaymentReleased {
    /// The address of the record.
    pub escrow: Identity,
    pub freelancer: Identity,
    pub amount: u64,
    pub released_by: Identity,
}

/// A party raised a dispute.
#[derive(Clone, Debug, PartialEq, Eq)]
pub struct DisputeInitiated {
    /// The address of the record.
    pub escrow: Identity,
    pub initiated_by: Identity,
    pub reason: String,
}

/// The arbitrator divided the amount between the parties.
#[derive(Clone, Copy, Debug, PartialEq, Eq)]
pub struct DisputeResolved {
    /// The address of the record.
    pub escrow: Identity,
    pub hirer_amount: u64,
    pub freelancer_amount: u64,
    pub resolved_by: Identity,
}

/// The arbitrator sent the full amount back to the hirer.
#[derive(Clone, Copy, Debug, PartialEq, Eq)]
pub struct EmergencyRefundIssued {
    /// The address of the record.
    pub escrow: Identity,
    pub amount: u64,
    pub refunded_by: Identity,
}

} // verus!
