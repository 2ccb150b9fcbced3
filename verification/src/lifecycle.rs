//! The lifecycle of a record as a state machine: requests, the step that
//! each request takes, and runs of many requests.

use vstd::prelude::*;
use crate::context::{EmergencyRefund, InitiateDispute, ReleasePayment, ResolveDispute};
use crate::controller::{
    dispute_refusal,
    disputed_at,
    refund_legs,
    refund_refusal,
    release_legs,
    release_refusal,
    resolution_legs,
    resolution_refusal,
    settled_at,
};
use crate::error::EscrowError;
use crate::escrow::Escrow;
use crate::transfer::{net_effect, Account, Transfer};

verus! {

/// One call of an operation on an existing record, with all that the
/// operation is told: its setting, its arguments, the number of planned
/// transfers that the adapter carried out, and the time.
#[allow(inconsistent_fields)]
pub enum Request {
    Release { ctx: ReleasePayment, completed: usize, now: i64 },
    Dispute { ctx: InitiateDispute, reason: String, now: i64 },
    Resolve {
        ctx: ResolveDispute,
        hirer_amount: u64,
        freelancer_amount: u64,
        completed: usize,
        now: i64,
    },
    Refund { ctx: EmergencyRefund, completed: usize, now: i64 },
}

/// Why the guards refuse the request on the record, if they do.
pub open spec fn refusal(escrow: Escrow, request: Request) -> Option<EscrowError> {
    match request {
        Request::Release { ctx, .. } => release_refusal(&escrow, &ctx),
        Request::Dispute { ctx, reason, .. } => dispute_refusal(&escrow, &ctx, reason@),
        Request::Resolve { ctx, hirer_amount, freelancer_amount, .. } => resolution_refusal(
            &escrow,
            &ctx,
            hirer_amount,
            freelancer_amount,
        ),
        Request::Refund { ctx, .. } => refund_refusal(&escrow, &ctx),
    }
}

/// The transfers that the request asks of the adapter once the guards
/// have let it pass.
pub open spec fn planned(escrow: Escrow, request: Request) -> Seq<Transfer> {
    match request {
        Request::Release { .. } => release_legs(&escrow),
        Request::Dispute { .. } => Seq::<Transfer>::empty(),
        Request::Resolve { hirer_amount, freelancer_amount, .. } => resolution_legs(
            hirer_amount,
            freelancer_amount,
        ),
        Request::Refund { .. } => refund_legs(&escrow),
    }
}

/// The number of planned transfers that the adapter carried out. A dispute
/// plans none.
pub open spec fn carried_out(request: Request) -> nat {
    match request {
        Request::Release { completed, .. } => completed as nat,
        Request::Dispute { .. } => 0,
        Request::Resolve { completed, .. } => completed as nat,
        Request::Refund { completed, .. } => completed as nat,
    }
}

/// Whether the request commits: the guards let it pass and the adapter
/// carried out every planned transfer.
pub open spec fn commits(escrow: Escrow, request: Request) -> bool {
    refusal(escrow, request) is None && carried_out(request) == planned(escrow, request).len()
}

/// The record after the request: changed where the request commits, and
/// as it was where it does not.
pub open spec fn step(escrow: Escrow, request: Request) -> Escrow {
    if !commits(escrow, request) {
        escrow
    } else {
        match request {
            Request::Release { now, .. } => settled_at(escrow, now),
            Request::Dispute { reason, now, .. } => disputed_at(escrow, reason, now),
            Request::Resolve { now, .. } => settled_at(escrow, now),
            Request::Refund { now, .. } => settled_at(escrow, now),
        }
    }
}

/// The transfers that stand after the request: the planned ones where the
/// request commits, and none where it does not, since a failed operation
/// is undone as a whole.
pub open spec fn moved(escrow: Escrow, request: Request) -> Seq<Transfer> {
    if commits(escrow, request) {
        planned(escrow, request)
    } else {
        Seq::<Transfer>::empty()
    }
}

/// The record after a run of requests, one after the other.
pub open spec fn run(escrow: Escrow, requests: Seq<Request>) -> Escrow
    decreases requests.len(),
{
    if requests.len() == 0 {
        escrow
    } else {
        step(run(escrow, requests.drop_last()), requests.last())
    }
}

/// The value that a run of requests has added to an account, through the
/// transfers that stand after each request.
pub open spec fn total_effect(escrow: Escrow, requests: Seq<Request>, account: Account) -> int
    decreases requests.len(),
{
    if requests.len() == 0 {
        0
    } else {
        total_effect(escrow, requests.drop_last(), account) + net_effect(
            moved(run(escrow, requests.drop_last()), requests.last()),
            account,
        )
    }
}

/// The value that has left custody over a run of requests.
pub open spec fn total_outflow(escrow: Escrow, requests: Seq<Request>) -> int {
    -total_effect(escrow, requests, Account::Custody)
}

} // verus!
