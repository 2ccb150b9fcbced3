//! The escrow record: one per job, keyed by the job identifier.

use vstd::prelude::*;
use crate::identity::Identity;

verus! {

/// The longest job identifier that a record can hold, in bytes.
pub const MAX_JOB_ID_LEN: usize = 64;

/// The longest dispute reason that a record can hold, in bytes.
pub const MAX_DISPUTE_REASON_LEN: usize = 200;

/// The number of bytes that a text takes when stored.
pub open spec fn byte_len(text: Seq<char>) -> nat {
    vstd::utf8::encode_utf8(text).len()
}

/// Whether a text is short enough to be a job identifier.
pub fn fits_job_id(text: &str) -> (fits: bool)
    ensures
        fits == (byte_len(text@) <= MAX_JOB_ID_LEN),
{
    text.as_bytes().len() <= MAX_JOB_ID_LEN
}

/// Whether a text is short enough to be a dispute reason.
pub fn fits_dispute_reason(text: &str) -> (fits: bool)
    ensures
        fits == (byte_len(text@) <= MAX_DISPUTE_REASON_LEN),
{
    text.as_bytes().len() <= MAX_DISPUTE_REASON_LEN
}

/// Where a record stands in its lifecycle.
#[derive(Clone, Copy, Debug, PartialEq, Eq, Hash, Structural)]
pub enum Status {
    /// Funds are in custody and no dispute is pending.
    Active,
    /// Funds are in custody and a dispute awaits the arbitrator.
    Disputed,
    /// The funds have left custody. No operation changes the record again.
    Released,
    /// The funds have gone back to the hirer. No operation of the
    /// controller produces this status; a record that carries it is treated
    /// as settled, like a released one.
    Refunded,
}

impl Status {
    /// Whether the funds have left custody, so that the record is final.
    pub open spec fn is_settled(self) -> bool {
        self == Status::Released || self == Status::Refunded
    }

    /// Whether the funds have left custody, so that the record is final.
    pub fn settled(&self) -> (settled: bool)
        ensures
            settled == self.is_settled(),
    {
        match self {
            Status::Released => true,
            Status::Refunded => true,
            _ => false,
        }
    }
}

/// The record of one escrow.
#[derive(Clone, Debug, PartialEq, Eq)]
pub struct Escrow {
    /// The paying party.
    pub hirer: Identity,
    /// The receiving party.
    pub freelancer: Identity,
    /// The key of the record; never changes.
    pub job_id: String,
    /// The value placed in custody at creation; never changes.
    pub amount: u64,
    /// An advisory timestamp that no operation reads.
    pub deadline: i64,
    pub status: Status,
    /// The reason given when a dispute was raised.
    pub dispute_reason: Option<String>,
    pub created_at: i64,
    pub released_at: Option<i64>,
    pub disputed_at: Option<i64>,
}

impl Escrow {
    /// The size of a stored record in bytes: a tag of 8 bytes, two
    /// identities, the job identifier and the dispute reason with their
    /// length prefixes, the amount, the deadline, the status flags, the
    /// three timestamps and one byte for the address derivation.
    pub const SIZE: usize = 8 + 32 + 32 + 4 + 64 + 8 + 8 + 1 + 1 + 1 + 4 + 200 + 8 + 1 + 8 + 1 + 8
        + 1;

    /// The invariant of a record: a positive amount, two distinct parties,
    /// texts within their caps, and timestamps that agree with the status.
    pub open spec fn well_formed(&self) -> bool {
        &&& self.amount > 0
        &&& self.hirer@ != self.freelancer@
        &&& byte_len(self.job_id@) <= MAX_JOB_ID_LEN
        &&& (self.dispute_reason is Some ==> byte_len(self.dispute_reason.unwrap()@)
            <= MAX_DISPUTE_REASON_LEN)
        &&& (self.dispute_reason is Some <==> self.disputed_at is Some)
        &&& (self.status == Status::Active ==> self.disputed_at is None)
        &&& (self.status == Status::Disputed ==> self.disputed_at is Some)
        &&& (self.status.is_settled() <==> self.released_at is Some)
    }

    /// Whether two records are the same job between the same parties for
    /// the same amount: the part of a record that no operation changes.
    pub open spec fn same_terms(&self, other: &Escrow) -> bool {
        &&& self.hirer == other.hirer
        &&& self.freelancer == other.freelancer
        &&& self.job_id == other.job_id
        &&& self.amount == other.amount
        &&& self.deadline == other.deadline
        &&& self.created_at == other.created_at
    }

    /// The value that the custody account of this record holds.
    pub open spec fn in_custody(&self) -> int {
        if self.status.is_settled() {
            0
        } else {
            self.amount as int
        }
    }

    /// Whether the funds have left custody.
    pub fn is_released(&self) -> (released: bool)
        ensures
            released == self.status.is_settled(),
    {
        self.status.settled()
    }

    /// Whether a dispute is pending.
    pub fn is_disputed(&self) -> (disputed: bool)
        ensures
            disputed == (self.status == Status::Disputed),
    {
        match self.status {
            Status::Disputed => true,
            _ => false,
        }
    }

    /// The record that a lookup under a job identifier found, or
    /// `RecordNotFound` where it found none.
    pub fn found(slot: Option<Escrow>) -> (r: Result<Escrow, crate::error::EscrowError>)
        ensures
            match slot {
                Some(record) => r == Ok::<Escrow, crate::error::EscrowError>(record),
                None => r == Err::<Escrow, crate::error::EscrowError>(
                    crate::error::EscrowError::RecordNotFound,
                ),
            },
    {
        match slot {
            Some(record) => Ok(record),
            None => Err(crate::error::EscrowError::RecordNotFound),
        }
    }
}

} // verus!
