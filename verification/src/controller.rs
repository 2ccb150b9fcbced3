//! The lifecycle controller: the five operations that change a record.
//!
//! The controller decides; the fund transfer adapter moves value. Each
//! operation that moves funds therefore comes in two steps. Its plan checks
//! the guards and names the transfers to ask of the adapter, in order. The
//! operation itself is then told how many of them the adapter carried out,
//! checks the guards again, and commits the new status only if every one of
//! them was carried out. The surrounding environment keeps the transfers
//! and the commit one indivisible unit: where an operation fails, it undoes
//! the transfers already made.

use vstd::prelude::*;
use crate::authorization::{authorize, permits, Action};
use crate::context::{
    EmergencyRefund,
    InitializeEscrow,
    InitiateDispute,
    ReleasePayment,
    ResolveDispute,
};
use crate::error::EscrowError;
use crate::escrow::{
    byte_len,
    fits_dispute_reason,
    fits_job_id,
    Escrow,
    Status,
    MAX_DISPUTE_REASON_LEN,
    MAX_JOB_ID_LEN,
};
use crate::events::{
    DisputeInitiated,
    DisputeResolved,
    EmergencyRefundIssued,
    EscrowCreated,
    PaymentReleased,
};
use crate::lifecycle::{step, Request};
use crate::transfer::{Account, Transfer};

verus! {

// ---------------------------------------------------------------------
// What each operation does, as mathematics
// ---------------------------------------------------------------------

/// Why a creation is refused before any funds move, if it is: a record
/// already stored under the job identifier, an amount of zero, one
/// identity as both parties, or a job identifier over its cap, in this
/// order.
pub open spec fn creation_refusal(ctx: &InitializeEscrow, job_id: Seq<char>, amount: u64) -> Option<
    EscrowError,
> {
    if ctx.record_exists {
        Some(EscrowError::RecordAlreadyExists)
    } else if amount == 0 {
        Some(EscrowError::InvalidAmount)
    } else if ctx.hirer@ == ctx.freelancer@ {
        Some(EscrowError::InvalidParties)
    } else if byte_len(job_id) > MAX_JOB_ID_LEN {
        Some(EscrowError::JobIdTooLong)
    } else {
        None
    }
}

/// Why a release is refused before any funds move, if it is: the state
/// guards first, then the authorization.
pub open spec fn release_refusal(escrow: &Escrow, ctx: &ReleasePayment) -> Option<EscrowError> {
    if escrow.status.is_settled() {
        Some(EscrowError::AlreadyReleased)
    } else if escrow.status == Status::Disputed {
        Some(EscrowError::InDispute)
    } else if !permits(
        ctx.signer,
        escrow,
        Action::Release { platform_admin: ctx.platform_admin },
    ) {
        Some(EscrowError::UnauthorizedRelease)
    } else {
        None
    }
}

/// Why a dispute is refused, if it is: the state guards first, then the
/// authorization, then the cap on the reason.
pub open spec fn dispute_refusal(escrow: &Escrow, ctx: &InitiateDispute, reason: Seq<char>) -> Option<
    EscrowError,
> {
    if escrow.status.is_settled() {
        Some(EscrowError::AlreadyReleased)
    } else if escrow.status == Status::Disputed {
        Some(EscrowError::AlreadyDisputed)
    } else if !permits(ctx.signer, escrow, Action::Dispute) {
        Some(EscrowError::UnauthorizedDispute)
    } else if byte_len(reason) > MAX_DISPUTE_REASON_LEN {
        Some(EscrowError::ReasonTooLong)
    } else {
        None
    }
}

/// Why a resolution is refused before any funds move, if it is: the state
/// guards first, then the authorization, then the sum of the two parts,
/// taken without overflow.
pub open spec fn resolution_refusal(
    escrow: &Escrow,
    ctx: &ResolveDispute,
    hirer_amount: u64,
    freelancer_amount: u64,
) -> Option<EscrowError> {
    if escrow.status.is_settled() {
        Some(EscrowError::AlreadyReleased)
    } else if escrow.status != Status::Disputed {
        Some(EscrowError::NotInDispute)
    } else if !permits(ctx.signer, escrow, Action::Resolve { admin: ctx.platform_admin }) {
        Some(EscrowError::UnauthorizedResolution)
    } else if hirer_amount + freelancer_amount != escrow.amount {
        Some(EscrowError::InvalidSplitAmount)
    } else {
        None
    }
}

/// Why an emergency refund is refused before any funds move, if it is:
/// the state guard first, then the authorization. A pending dispute does
/// not stand in its way.
pub open spec fn refund_refusal(escrow: &Escrow, ctx: &EmergencyRefund) -> Option<EscrowError> {
    if escrow.status.is_settled() {
        Some(EscrowError::AlreadyReleased)
    } else if !permits(ctx.signer, escrow, Action::Refund { admin: ctx.platform_admin }) {
        Some(EscrowError::UnauthorizedRefund)
    } else {
        None
    }
}

/// The transfer of a creation: the amount goes from the hirer into custody.
pub open spec fn funding_legs(amount: u64) -> Seq<Transfer> {
    seq![Transfer { from: Account::Hirer, to: Account::Custody, amount }]
}

/// The transfer of a release: the full amount goes to the freelancer.
pub open spec fn release_legs(escrow: &Escrow) -> Seq<Transfer> {
    seq![Transfer { from: Account::Custody, to: Account::Freelancer, amount: escrow.amount }]
}

/// The transfers of a resolution: the freelancer's part first, then the
/// hirer's; a part of zero is left out.
pub open spec fn resolution_legs(hirer_amount: u64, freelancer_amount: u64) -> Seq<Transfer> {
    let to_freelancer = if freelancer_amount > 0 {
        seq![
            Transfer { from: Account::Custody, to: Account::Freelancer, amount: freelancer_amount },
        ]
    } else {
        Seq::<Transfer>::empty()
    };
    let to_hirer = if hirer_amount > 0 {
        seq![Transfer { from: Account::Custody, to: Account::Hirer, amount: hirer_amount }]
    } else {
        Seq::<Transfer>::empty()
    };
    to_freelancer + to_hirer
}

/// The transfer of an emergency refund: the full amount goes back to the hirer.
pub open spec fn refund_legs(escrow: &Escrow) -> Seq<Transfer> {
    seq![Transfer { from: Account::Custody, to: Account::Hirer, amount: escrow.amount }]
}

/// The record that a creation writes.
pub open spec fn created(
    ctx: &InitializeEscrow,
    job_id: String,
    amount: u64,
    deadline: i64,
    now: i64,
) -> Escrow {
    Escrow {
        hirer: ctx.hirer,
        freelancer: ctx.freelancer,
        job_id,
        amount,
        deadline,
        status: Status::Active,
        dispute_reason: None,
        created_at: now,
        released_at: None,
        disputed_at: None,
    }
}

/// The record after its funds have left custody at time `now`.
pub open spec fn settled_at(escrow: Escrow, now: i64) -> Escrow {
    Escrow { status: Status::Released, released_at: Some(now), ..escrow }
}

/// The record after a dispute was raised at time `now`.
pub open spec fn disputed_at(escrow: Escrow, reason: String, now: i64) -> Escrow {
    Escrow {
        status: Status::Disputed,
        dispute_reason: Some(reason),
        disputed_at: Some(now),
        ..escrow
    }
}

// ---------------------------------------------------------------------
// Guards
// ---------------------------------------------------------------------

/// Checks the guards of a creation.
pub fn check_creation(ctx: &InitializeEscrow, job_id: &str, amount: u64) -> (r: Result<
    (),
    EscrowError,
>)
    ensures
        match creation_refusal(ctx, job_id@, amount) {
            Some(e) => r == Err::<(), EscrowError>(e),
            None => r is Ok,
        },
{
    if ctx.record_exists {
        return Err(EscrowError::RecordAlreadyExists);
    }
    if amount == 0 {
        return Err(EscrowError::InvalidAmount);
    }
    if ctx.hirer.same_as(&ctx.freelancer) {
        return Err(EscrowError::InvalidParties);
    }
    if !fits_job_id(job_id) {
        return Err(EscrowError::JobIdTooLong);
    }
    Ok(())
}

/// Checks the guards of a release.
pub fn check_release(escrow: &Escrow, ctx: &ReleasePayment) -> (r: Result<(), EscrowError>)
    ensures
        match release_refusal(escrow, ctx) {
            Some(e) => r == Err::<(), EscrowError>(e),
            None => r is Ok,
        },
{
    if escrow.status.settled() {
        return Err(EscrowError::AlreadyReleased);
    }
    if escrow.is_disputed() {
        return Err(EscrowError::InDispute);
    }
    let action = Action::Release { platform_admin: ctx.platform_admin };
    if !authorize(&ctx.signer, escrow, &action) {
        return Err(EscrowError::UnauthorizedRelease);
    }
    Ok(())
}

/// Checks the guards of a dispute.
pub fn check_dispute(escrow: &Escrow, ctx: &InitiateDispute, reason: &str) -> (r: Result<
    (),
    EscrowError,
>)
    ensures
        match dispute_refusal(escrow, ctx, reason@) {
            Some(e) => r == Err::<(), EscrowError>(e),
            None => r is Ok,
        },
{
    if escrow.status.settled() {
        return Err(EscrowError::AlreadyReleased);
    }
    if escrow.is_disputed() {
        return Err(EscrowError::AlreadyDisputed);
    }
    if !authorize(&ctx.signer, escrow, &Action::Dispute) {
        return Err(EscrowError::UnauthorizedDispute);
    }
    if !fits_dispute_reason(reason) {
        return Err(EscrowError::ReasonTooLong);
    }
    Ok(())
}

/// Checks the guards of a resolution.
pub fn check_resolution(
    escrow: &Escrow,
    ctx: &ResolveDispute,
    hirer_amount: u64,
    freelancer_amount: u64,
) -> (r: Result<(), EscrowError>)
    ensures
        match resolution_refusal(escrow, ctx, hirer_amount, freelancer_amount) {
            Some(e) => r == Err::<(), EscrowError>(e),
            None => r is Ok,
        },
{
    if escrow.status.settled() {
        return Err(EscrowError::AlreadyReleased);
    }
    if !escrow.is_disputed() {
        return Err(EscrowError::NotInDispute);
    }
    let action = Action::Resolve { admin: ctx.platform_admin };
    if !authorize(&ctx.signer, escrow, &action) {
        return Err(EscrowError::UnauthorizedResolution);
    }
    match hirer_amount.checked_add(freelancer_amount) {
        Some(sum) => {
            if sum != escrow.amount {
                return Err(EscrowError::InvalidSplitAmount);
            }
        },
        None => {
            return Err(EscrowError::InvalidSplitAmount);
        },
    }
    Ok(())
}

/// Checks the guards of an emergency refund.
pub fn check_refund(escrow: &Escrow, ctx: &EmergencyRefund) -> (r: Result<(), EscrowError>)
    ensures
        match refund_refusal(escrow, ctx) {
            Some(e) => r == Err::<(), EscrowError>(e),
            None => r is Ok,
        },
{
    if escrow.status.settled() {
        return Err(EscrowError::AlreadyReleased);
    }
    let action = Action::Refund { admin: ctx.platform_admin };
    if !authorize(&ctx.signer, escrow, &action) {
        return Err(EscrowError::UnauthorizedRefund);
    }
    Ok(())
}

// ---------------------------------------------------------------------
// Plans: the transfers to ask of the adapter
// ---------------------------------------------------------------------

/// The transfers that a creation asks of the adapter, or the reason why it
/// is refused.
pub fn funding_plan(ctx: &InitializeEscrow, job_id: &str, amount: u64) -> (r: Result<
    Vec<Transfer>,
    EscrowError,
>)
    ensures
        match creation_refusal(ctx, job_id@, amount) {
            Some(e) => r == Err::<Vec<Transfer>, EscrowError>(e),
            None => r is Ok && r.unwrap()@ == funding_legs(amount),
        },
{
    match check_creation(ctx, job_id, amount) {
        Err(e) => {
            return Err(e);
        },
        Ok(_) => {},
    }
    let mut legs: Vec<Transfer> = Vec::new();
    legs.push(Transfer { from: Account::Hirer, to: Account::Custody, amount });
    proof {
        assert(legs@ =~= funding_legs(amount));
    }
    Ok(legs)
}

/// The transfers that a release asks of the adapter, or the reason why it
/// is refused.
pub fn release_plan(escrow: &Escrow, ctx: &ReleasePayment) -> (r: Result<
    Vec<Transfer>,
    EscrowError,
>)
    ensures
        match release_refusal(escrow, ctx) {
            Some(e) => r == Err::<Vec<Transfer>, EscrowError>(e),
            None => r is Ok && r.unwrap()@ == release_legs(escrow),
        },
{
    match check_release(escrow, ctx) {
        Err(e) => Err(e),
        Ok(_) => {
            let mut legs: Vec<Transfer> = Vec::new();
            legs.push(
                Transfer { from: Account::Custody, to: Account::Freelancer, amount: escrow.amount },
            );
            proof {
                assert(legs@ =~= release_legs(escrow));
            }
            Ok(legs)
        },
    }
}

/// The transfers that a resolution asks of the adapter, or the reason why
/// it is refused.
pub fn resolution_plan(
    escrow: &Escrow,
    ctx: &ResolveDispute,
    hirer_amount: u64,
    freelancer_amount: u64,
) -> (r: Result<Vec<Transfer>, EscrowError>)
    ensures
        match resolution_refusal(escrow, ctx, hirer_amount, freelancer_amount) {
            Some(e) => r == Err::<Vec<Transfer>, EscrowError>(e),
            None => r is Ok && r.unwrap()@ == resolution_legs(hirer_amount, freelancer_amount),
        },
{
    match check_resolution(escrow, ctx, hirer_amount, freelancer_amount) {
        Err(e) => Err(e),
        Ok(_) => {
            let mut legs: Vec<Transfer> = Vec::new();
            if freelancer_amount > 0 {
                legs.push(
                    Transfer {
                        from: Account::Custody,
                        to: Account::Freelancer,
                        amount: freelancer_amount,
                    },
                );
            }
            if hirer_amount > 0 {
                legs.push(
                    Transfer { from: Account::Custody, to: Account::Hirer, amount: hirer_amount },
                );
            }
            proof {
                assert(legs@ =~= resolution_legs(hirer_amount, freelancer_amount));
            }
            Ok(legs)
        },
    }
}

/// The transfers that an emergency refund asks of the adapter, or the
/// reason why it is refused.
pub fn refund_plan(escrow: &Escrow, ctx: &EmergencyRefund) -> (r: Result<
    Vec<Transfer>,
    EscrowError,
>)
    ensures
        match refund_refusal(escrow, ctx) {
            Some(e) => r == Err::<Vec<Transfer>, EscrowError>(e),
            None => r is Ok && r.unwrap()@ == refund_legs(escrow),
        },
{
    match check_refund(escrow, ctx) {
        Err(e) => Err(e),
        Ok(_) => {
            let mut legs: Vec<Transfer> = Vec::new();
            legs.push(
                Transfer { from: Account::Custody, to: Account::Hirer, amount: escrow.amount },
            );
            proof {
                assert(legs@ =~= refund_legs(escrow));
            }
            Ok(legs)
        },
    }
}

// ---------------------------------------------------------------------
// The operations
// ---------------------------------------------------------------------

/// Creates the record of a job whose funds the adapter has been asked to
/// place in custody. `completed` is the number of transfers of
/// `funding_plan` that the adapter carried out, and `now` the time.
///
/// Refused with `RecordAlreadyExists` where a record is stored under the
/// job identifier, with `InvalidAmount` for an amount of zero, with
/// `InvalidParties` where hirer and freelancer are one identity, with
/// `JobIdTooLong` for a job identifier over its cap, and with
/// `TransferFailed` where the adapter did not carry out the transfer.
/// Otherwise the result is the new record, active and well-formed, and the
/// event to publish.
pub fn initialize_escrow(
    ctx: &InitializeEscrow,
    job_id: String,
    amount: u64,
    deadline: i64,
    completed: usize,
    now: i64,
) -> (r: Result<(Escrow, EscrowCreated), EscrowError>)
    ensures
        match creation_refusal(ctx, job_id@, amount) {
            Some(e) => r == Err::<(Escrow, EscrowCreated), EscrowError>(e),
            None => if completed == funding_legs(amount).len() {
                &&& r is Ok
                &&& r.unwrap().0 == created(ctx, job_id, amount, deadline, now)
                &&& r.unwrap().1 == (EscrowCreated {
                    escrow: ctx.escrow_key,
                    hirer: ctx.hirer,
                    freelancer: ctx.freelancer,
                    job_id,
                    amount,
                    deadline,
                })
            } else {
                r == Err::<(Escrow, EscrowCreated), EscrowError>(EscrowError::TransferFailed)
            },
        },
        r is Ok ==> r.unwrap().0.well_formed() && r.unwrap().0.status == Status::Active,
{
    match check_creation(ctx, job_id.as_str(), amount) {
        Err(e) => {
            return Err(e);
        },
        Ok(_) => {},
    }
    if completed != 1 {
        return Err(EscrowError::TransferFailed);
    }
    let event = EscrowCreated {
        escrow: ctx.escrow_key,
        hirer: ctx.hirer,
        freelancer: ctx.freelancer,
        job_id: job_id.clone(),
        amount,
        deadline,
    };
    let escrow = Escrow {
        hirer: ctx.hirer,
        freelancer: ctx.freelancer,
        job_id,
        amount,
        deadline,
        status: Status::Active,
        dispute_reason: None,
        created_at: now,
        released_at: None,
        disputed_at: None,
    };
    Ok((escrow, event))
}

/// Releases the full amount to the freelancer. `completed` is the number
/// of transfers of `release_plan` that the adapter carried out, and `now`
/// the time.
///
/// Refused with `AlreadyReleased` on a settled record, with `InDispute`
/// while a dispute is pending, with `UnauthorizedRelease` where the caller
/// is neither the hirer nor the platform admin, and with `TransferFailed`
/// where the adapter did not carry out the transfer. A refusal leaves the
/// record as it was.
pub fn release_payment(
    escrow: &mut Escrow,
    ctx: &ReleasePayment,
    completed: usize,
    now: i64,
) -> (r: Result<PaymentReleased, EscrowError>)
    ensures
        match release_refusal(old(escrow), ctx) {
            Some(e) => r == Err::<PaymentReleased, EscrowError>(e) && *final(escrow) == *old(
                escrow,
            ),
            None => if completed == release_legs(old(escrow)).len() {
                &&& *final(escrow) == settled_at(*old(escrow), now)
                &&& r == Ok::<PaymentReleased, EscrowError>(
                    PaymentReleased {
                        escrow: ctx.escrow_key,
                        freelancer: old(escrow).freelancer,
                        amount: old(escrow).amount,
                        released_by: ctx.signer,
                    },
                )
            } else {
                &&& r == Err::<PaymentReleased, EscrowError>(EscrowError::TransferFailed)
                &&& *final(escrow) == *old(escrow)
            },
        },
        *final(escrow) == step(*old(escrow), Request::Release { ctx: *ctx, completed, now }),
        old(escrow).well_formed() ==> final(escrow).well_formed(),
{
    match check_release(escrow, ctx) {
        Err(e) => {
            return Err(e);
        },
        Ok(_) => {},
    }
    if completed != 1 {
        return Err(EscrowError::TransferFailed);
    }
    escrow.status = Status::Released;
    escrow.released_at = Some(now);
    Ok(
        PaymentReleased {
            escrow: ctx.escrow_key,
            freelancer: escrow.freelancer,
            amount: escrow.amount,
            released_by: ctx.signer,
        },
    )
}

/// Raises a dispute with the given reason at time `now`. No funds move.
///
/// Refused with `AlreadyReleased` on a settled record, with
/// `AlreadyDisputed` while a dispute is pending, and with
/// `UnauthorizedDispute` where the caller is neither the hirer nor the
/// freelancer, and with `ReasonTooLong` for a reason over its cap. A
/// refusal leaves the record as it was.
pub fn initiate_dispute(escrow: &mut Escrow, ctx: &InitiateDispute, reason: String, now: i64) -> (r:
    Result<DisputeInitiated, EscrowError>)
    ensures
        match dispute_refusal(old(escrow), ctx, reason@) {
            Some(e) => r == Err::<DisputeInitiated, EscrowError>(e) && *final(escrow) == *old(
                escrow,
            ),
            None => {
                &&& *final(escrow) == disputed_at(*old(escrow), reason, now)
                &&& r == Ok::<DisputeInitiated, EscrowError>(
                    DisputeInitiated { escrow: ctx.escrow_key, initiated_by: ctx.signer, reason },
                )
            },
        },
        *final(escrow) == step(*old(escrow), Request::Dispute { ctx: *ctx, reason, now }),
        old(escrow).well_formed() ==> final(escrow).well_formed(),
{
    match check_dispute(escrow, ctx, reason.as_str()) {
        Err(e) => {
            return Err(e);
        },
        Ok(_) => {},
    }
    escrow.status = Status::Disputed;
    escrow.dispute_reason = Some(reason.clone());
    escrow.disputed_at = Some(now);
    Ok(DisputeInitiated { escrow: ctx.escrow_key, initiated_by: ctx.signer, reason })
}

/// Resolves a pending dispute by dividing the amount: `freelancer_amount`
/// to the freelancer and `hirer_amount` back to the hirer. `completed` is
/// the number of transfers of `resolution_plan` that the adapter carried
/// out, in their order, and `now` the time.
///
/// Refused with `AlreadyReleased` on a settled record, with `NotInDispute`
/// where no dispute is pending, with `UnauthorizedResolution` where the
/// caller is not the platform admin, with `InvalidSplitAmount` where the two
/// parts do not add up to the escrowed amount, and with `TransferFailed`
/// where the adapter carried out fewer transfers than planned. A refusal
/// leaves the record as it was: the record reads released only where every
/// planned transfer was carried out.
pub fn resolve_dispute(
    escrow: &mut Escrow,
    ctx: &ResolveDispute,
    hirer_amount: u64,
    freelancer_amount: u64,
    completed: usize,
    now: i64,
) -> (r: Result<DisputeResolved, EscrowError>)
    ensures
        match resolution_refusal(old(escrow), ctx, hirer_amount, freelancer_amount) {
            Some(e) => r == Err::<DisputeResolved, EscrowError>(e) && *final(escrow) == *old(
                escrow,
            ),
            None => if completed == resolution_legs(hirer_amount, freelancer_amount).len() {
                &&& *final(escrow) == settled_at(*old(escrow), now)
                &&& r == Ok::<DisputeResolved, EscrowError>(
                    DisputeResolved {
                        escrow: ctx.escrow_key,
                        hirer_amount,
                        freelancer_amount,
                        resolved_by: ctx.signer,
                    },
                )
            } else {
                &&& r == Err::<DisputeResolved, EscrowError>(EscrowError::TransferFailed)
                &&& *final(escrow) == *old(escrow)
            },
        },
        r is Ok ==> hirer_amount + freelancer_amount == old(escrow).amount && ctx.signer@
            == ctx.platform_admin@,
        final(escrow).status != old(escrow).status ==> completed == resolution_legs(
            hirer_amount,
            freelancer_amount,
        ).len(),
        *final(escrow) == step(*old(escrow), Request::Resolve { ctx: *ctx, hirer_amount, freelancer_amount, completed, now }),
        old(escrow).well_formed() ==> final(escrow).well_formed(),
{
    match check_resolution(escrow, ctx, hirer_amount, freelancer_amount) {
        Err(e) => {
            return Err(e);
        },
        Ok(_) => {},
    }
    let mut planned: usize = 0;
    if freelancer_amount > 0 {
        planned = planned + 1;
    }
    if hirer_amount > 0 {
        planned = planned + 1;
    }
    if completed != planned {
        return Err(EscrowError::TransferFailed);
    }
    escrow.status = Status::Released;
    escrow.released_at = Some(now);
    Ok(
        DisputeResolved {
            escrow: ctx.escrow_key,
            hirer_amount,
            freelancer_amount,
            resolved_by: ctx.signer,
        },
    )
}

/// Sends the full amount back to the hirer, whether or not a dispute is
/// pending. `completed` is the number of transfers of `refund_plan` that
/// the adapter carried out, and `now` the time.
///
/// Refused with `AlreadyReleased` on a settled record, with
/// `UnauthorizedRefund` where the caller is not the platform admin, and
/// with `TransferFailed` where the adapter did not carry out the transfer.
/// A refusal leaves the record as it was.
pub fn emergency_refund(
    escrow: &mut Escrow,
    ctx: &EmergencyRefund,
    completed: usize,
    now: i64,
) -> (r: Result<EmergencyRefundIssued, EscrowError>)
    ensures
        match refund_refusal(old(escrow), ctx) {
            Some(e) => r == Err::<EmergencyRefundIssued, EscrowError>(e) && *final(escrow) == *old(
                escrow,
            ),
            None => if completed == refund_legs(old(escrow)).len() {
                &&& *final(escrow) == settled_at(*old(escrow), now)
                &&& r == Ok::<EmergencyRefundIssued, EscrowError>(
                    EmergencyRefundIssued {
                        escrow: ctx.escrow_key,
                        amount: old(escrow).amount,
                        refunded_by: ctx.signer,
                    },
                )
            } else {
                &&& r == Err::<EmergencyRefundIssued, EscrowError>(EscrowError::TransferFailed)
                &&& *final(escrow) == *old(escrow)
            },
        },
        *final(escrow) == step(*old(escrow), Request::Refund { ctx: *ctx, completed, now }),
        r is Ok ==> ctx.signer@ == ctx.platform_admin@,
        old(escrow).well_formed() ==> final(escrow).well_formed(),
{
    match check_refund(escrow, ctx) {
        Err(e) => {
            return Err(e);
        },
        Ok(_) => {},
    }
    if completed != 1 {
        return Err(EscrowError::TransferFailed);
    }
    escrow.status = Status::Released;
    escrow.released_at = Some(now);
    Ok(
        EmergencyRefundIssued {
            escrow: ctx.escrow_key,
            amount: escrow.amount,
            refunded_by: ctx.signer,
        },
    )
}

} // verus!
