//! The ways in which an escrow operation is refused.

use vstd::prelude::*;

verus! {

/// Why an operation was refused. Every refusal leaves the record as it was.
#[derive(Clone, Copy, Debug, PartialEq, Eq, Hash, Structural)]
pub enum EscrowError {
    /// The funds have already left custody; the record is terminal.
    AlreadyReleased,
    /// A release was asked for while a dispute is pending.
    InDispute,
    /// A resolution was asked for while no dispute is pending.
    NotInDispute,
    /// A dispute was raised while one is already pending.
    AlreadyDisputed,
    /// The caller is neither the hirer nor the platform admin.
    UnauthorizedRelease,
    /// The caller is neither the hirer nor the freelancer.
    UnauthorizedDispute,
    /// The caller of a resolution is not the platform admin.
    UnauthorizedResolution,
    /// The caller of an emergency refund is not the platform admin.
    UnauthorizedRefund,
    /// The two parts of a resolution do not add up to the escrowed amount.
    InvalidSplitAmount,
    /// A creation asks for an amount of zero.
    InvalidAmount,
    /// A creation names the same identity as hirer and as freelancer.
    InvalidParties,
    /// The job identifier is longer than a record can hold.
    JobIdTooLong,
    /// The dispute reason is longer than a record can hold.
    ReasonTooLong,
    /// No record is stored under the job identifier.
    RecordNotFound,
    /// A record is already stored under the job identifier.
    RecordAlreadyExists,
    /// The fund transfer adapter did not carry out every planned transfer.
    TransferFailed,
}

impl EscrowError {
    /// The text shown to the caller for this error.
    pub open spec fn text(self) -> Seq<char> {
        match self {
            EscrowError::AlreadyReleased => "Payment has already been released"@,
            EscrowError::InDispute => "Escrow is currently in dispute"@,
            EscrowError::NotInDispute => "Escrow is not in dispute"@,
            EscrowError::AlreadyDisputed => "Escrow is already disputed"@,
            EscrowError::UnauthorizedRelease => "Unauthorized to release payment"@,
            EscrowError::UnauthorizedDispute => "Unauthorized to initiate dispute"@,
            EscrowError::UnauthorizedResolution => "Unauthorized to resolve dispute"@,
            EscrowError::UnauthorizedRefund => "Unauthorized to issue emergency refund"@,
            EscrowError::InvalidSplitAmount => "Invalid split amount for dispute resolution"@,
            EscrowError::InvalidAmount => "Escrow amount must be greater than zero"@,
            EscrowError::InvalidParties => "Hirer and freelancer must be different"@,
            EscrowError::JobIdTooLong => "Job identifier is too long"@,
            EscrowError::ReasonTooLong => "Dispute reason is too long"@,
            EscrowError::RecordNotFound => "No escrow record exists for this job"@,
            EscrowError::RecordAlreadyExists => "An escrow record already exists for this job"@,
            EscrowError::TransferFailed => "Fund transfer failed"@,
        }
    }

    /// The message of this error, as an owned string.
    pub fn message(&self) -> (msg: String)
        ensures
            msg@ == self.text(),
    {
        let text: &str = match self {
            EscrowError::AlreadyReleased => "Payment has already been released",
            EscrowError::InDispute => "Escrow is currently in dispute",
            EscrowError::NotInDispute => "Escrow is not in dispute",
            EscrowError::AlreadyDisputed => "Escrow is already disputed",
            EscrowError::UnauthorizedRelease => "Unauthorized to release payment",
            EscrowError::UnauthorizedDispute => "Unauthorized to initiate dispute",
            EscrowError::UnauthorizedResolution => "Unauthorized to resolve dispute",
            EscrowError::UnauthorizedRefund => "Unauthorized to issue emergency refund",
            EscrowError::InvalidSplitAmount => "Invalid split amount for dispute resolution",
            EscrowError::InvalidAmount => "Escrow amount must be greater than zero",
            EscrowError::InvalidParties => "Hirer and freelancer must be different",
            EscrowError::JobIdTooLong => "Job identifier is too long",
            EscrowError::ReasonTooLong => "Dispute reason is too long",
            EscrowError::RecordNotFound => "No escrow record exists for this job",
            EscrowError::RecordAlreadyExists => "An escrow record already exists for this job",
            EscrowError::TransferFailed => "Fund transfer failed",
        };
        text.to_owned()
    }

    /// Whether this error reports a state guard: the record is not in a
    /// state from which the operation may start.
    pub open spec fn is_state_guard(self) -> bool {
        self == EscrowError::AlreadyReleased || self == EscrowError::InDispute
            || self == EscrowError::NotInDispute || self == EscrowError::AlreadyDisputed
    }

    /// Whether this error reports that the caller lacks the authority.
    pub open spec fn is_authorization_denial(self) -> bool {
        self == EscrowError::UnauthorizedRelease || self == EscrowError::UnauthorizedDispute
            || self == EscrowError::UnauthorizedResolution || self
            == EscrowError::UnauthorizedRefund
    }

    /// Whether this error reports an argument that no record can hold.
    pub open spec fn is_input_rejection(self) -> bool {
        self == EscrowError::InvalidAmount || self == EscrowError::InvalidParties || self
            == EscrowError::JobIdTooLong || self == EscrowError::ReasonTooLong
    }
}

} // verus!
