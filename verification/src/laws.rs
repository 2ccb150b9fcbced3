//! What holds of every record, whatever is asked of it.

use vstd::prelude::*;
use crate::context::{
    EmergencyRefund,
    InitializeEscrow,
    InitiateDispute,
    ReleasePayment,
    ResolveDispute,
};
use crate::controller::{
    created,
    creation_refusal,
    dispute_refusal,
    funding_legs,
    refund_legs,
    refund_refusal,
    release_legs,
    release_refusal,
    resolution_legs,
    resolution_refusal,
};
use crate::error::EscrowError;
use crate::escrow::{byte_len, Escrow, Status, MAX_DISPUTE_REASON_LEN, MAX_JOB_ID_LEN};
use crate::lifecycle::{
    commits,
    moved,
    planned,
    refusal,
    run,
    step,
    total_effect,
    total_outflow,
    Request,
};
use crate::transfer::{
    custody_outflow,
    lemma_net_effect_empty,
    lemma_net_effect_one,
    lemma_net_effect_two,
    lemma_transfers_create_no_value,
    net_effect,
    Account,
    Transfer,
};

verus! {

/// A creation places exactly the amount in custody, out of the hirer's
/// account, and the new record holds that amount in custody.
pub proof fn law_creation_funds_custody(
    ctx: InitializeEscrow,
    job_id: String,
    amount: u64,
    deadline: i64,
    now: i64,
)
    requires
        creation_refusal(&ctx, job_id@, amount) is None,
    ensures
        net_effect(funding_legs(amount), Account::Custody) == amount,
        net_effect(funding_legs(amount), Account::Hirer) == -amount,
        net_effect(funding_legs(amount), Account::Freelancer) == 0,
        created(&ctx, job_id, amount, deadline, now).in_custody() == amount,
        created(&ctx, job_id, amount, deadline, now).well_formed(),
{
    let leg = Transfer { from: Account::Hirer, to: Account::Custody, amount };
    lemma_net_effect_one(leg, Account::Custody);
    lemma_net_effect_one(leg, Account::Hirer);
    lemma_net_effect_one(leg, Account::Freelancer);
}

/// The transfers of a resolution take the sum of the two parts out of
/// custody, and give each party its part.
pub proof fn law_resolution_pays_the_parts(hirer_amount: u64, freelancer_amount: u64)
    ensures
        custody_outflow(resolution_legs(hirer_amount, freelancer_amount)) == hirer_amount
            + freelancer_amount,
        net_effect(resolution_legs(hirer_amount, freelancer_amount), Account::Hirer)
            == hirer_amount,
        net_effect(resolution_legs(hirer_amount, freelancer_amount), Account::Freelancer)
            == freelancer_amount,
{
    let legs = resolution_legs(hirer_amount, freelancer_amount);
    let to_f = Transfer {
        from: Account::Custody,
        to: Account::Freelancer,
        amount: freelancer_amount,
    };
    let to_h = Transfer { from: Account::Custody, to: Account::Hirer, amount: hirer_amount };
    if freelancer_amount > 0 && hirer_amount > 0 {
        assert(legs =~= seq![to_f, to_h]);
        lemma_net_effect_two(to_f, to_h, Account::Custody);
        lemma_net_effect_two(to_f, to_h, Account::Hirer);
        lemma_net_effect_two(to_f, to_h, Account::Freelancer);
    } else if freelancer_amount > 0 {
        assert(legs =~= seq![to_f]);
        lemma_net_effect_one(to_f, Account::Custody);
        lemma_net_effect_one(to_f, Account::Hirer);
        lemma_net_effect_one(to_f, Account::Freelancer);
    } else if hirer_amount > 0 {
        assert(legs =~= seq![to_h]);
        lemma_net_effect_one(to_h, Account::Custody);
        lemma_net_effect_one(to_h, Account::Hirer);
        lemma_net_effect_one(to_h, Account::Freelancer);
    } else {
        assert(legs =~= Seq::<Transfer>::empty());
        lemma_net_effect_empty(Account::Custody);
        lemma_net_effect_empty(Account::Hirer);
        lemma_net_effect_empty(Account::Freelancer);
    }
}

/// Conservation in a resolution: where the guards let a resolution pass,
/// the two parts add up to the escrowed amount, and its transfers take
/// exactly that amount out of custody.
pub proof fn law_resolution_conserves(
    escrow: Escrow,
    ctx: ResolveDispute,
    hirer_amount: u64,
    freelancer_amount: u64,
)
    requires
        resolution_refusal(&escrow, &ctx, hirer_amount, freelancer_amount) is None,
    ensures
        hirer_amount + freelancer_amount == escrow.amount,
        custody_outflow(resolution_legs(hirer_amount, freelancer_amount)) == escrow.amount,
        net_effect(resolution_legs(hirer_amount, freelancer_amount), Account::Hirer) + net_effect(
            resolution_legs(hirer_amount, freelancer_amount),
            Account::Freelancer,
        ) == escrow.amount,
{
    law_resolution_pays_the_parts(hirer_amount, freelancer_amount);
}

/// A release gives the full amount to the freelancer, and an emergency
/// refund gives it back to the hirer; each takes it out of custody.
pub proof fn law_full_amount_leaves_custody(escrow: Escrow)
    ensures
        custody_outflow(release_legs(&escrow)) == escrow.amount,
        net_effect(release_legs(&escrow), Account::Freelancer) == escrow.amount,
        net_effect(release_legs(&escrow), Account::Hirer) == 0,
        custody_outflow(refund_legs(&escrow)) == escrow.amount,
        net_effect(refund_legs(&escrow), Account::Hirer) == escrow.amount,
        net_effect(refund_legs(&escrow), Account::Freelancer) == 0,
{
    let release = Transfer {
        from: Account::Custody,
        to: Account::Freelancer,
        amount: escrow.amount,
    };
    let refund = Transfer { from: Account::Custody, to: Account::Hirer, amount: escrow.amount };
    lemma_net_effect_one(release, Account::Custody);
    lemma_net_effect_one(release, Account::Hirer);
    lemma_net_effect_one(release, Account::Freelancer);
    lemma_net_effect_one(refund, Account::Custody);
    lemma_net_effect_one(refund, Account::Hirer);
    lemma_net_effect_one(refund, Account::Freelancer);
}

/// Conservation in one step: what a request takes out of custody is what
/// the record held in custody before, less what it holds after.
pub proof fn law_step_conserves(escrow: Escrow, request: Request)
    ensures
        escrow.in_custody() == step(escrow, request).in_custody() + custody_outflow(
            moved(escrow, request),
        ),
{
    if commits(escrow, request) {
        law_full_amount_leaves_custody(escrow);
        match request {
            Request::Resolve { ctx, hirer_amount, freelancer_amount, .. } => {
                law_resolution_conserves(escrow, ctx, hirer_amount, freelancer_amount);
            },
            Request::Dispute { .. } => {
                lemma_net_effect_empty(Account::Custody);
            },
            _ => {},
        }
    } else {
        lemma_net_effect_empty(Account::Custody);
    }
}

/// Conservation over the life of a record: after any run of requests, the
/// value that has left custody and the value still in custody add up to
/// the value in custody at the start. A record that starts unsettled and
/// ends settled has paid out exactly its amount, and one that is not
/// settled has paid out nothing.
pub proof fn law_conservation(escrow: Escrow, requests: Seq<Request>)
    ensures
        escrow.in_custody() == run(escrow, requests).in_custody() + total_outflow(
            escrow,
            requests,
        ),
        !escrow.status.is_settled() && run(escrow, requests).status.is_settled()
            ==> total_outflow(escrow, requests) == escrow.amount,
        !run(escrow, requests).status.is_settled() ==> total_outflow(escrow, requests) == 0,
    decreases requests.len(),
{
    if requests.len() > 0 {
        law_conservation(escrow, requests.drop_last());
        law_step_conserves(run(escrow, requests.drop_last()), requests.last());
        law_settled_stays_settled(escrow, requests.drop_last());
        law_terms_never_change(escrow, requests);
    }
}

/// What leaves custody reaches the parties: over any run of requests the
/// hirer and the freelancer together gain exactly what has left custody,
/// and neither of them pays.
pub proof fn law_payout_reaches_the_parties(escrow: Escrow, requests: Seq<Request>)
    ensures
        total_effect(escrow, requests, Account::Hirer) + total_effect(
            escrow,
            requests,
            Account::Freelancer,
        ) == total_outflow(escrow, requests),
        total_effect(escrow, requests, Account::Hirer) >= 0,
        total_effect(escrow, requests, Account::Freelancer) >= 0,
    decreases requests.len(),
{
    if requests.len() > 0 {
        let before = run(escrow, requests.drop_last());
        let request = requests.last();
        law_payout_reaches_the_parties(escrow, requests.drop_last());
        lemma_transfers_create_no_value(moved(before, request));
        if commits(before, request) {
            law_full_amount_leaves_custody(before);
            match request {
                Request::Resolve { hirer_amount, freelancer_amount, .. } => {
                    law_resolution_pays_the_parts(hirer_amount, freelancer_amount);
                },
                Request::Dispute { .. } => {
                    lemma_net_effect_empty(Account::Hirer);
                    lemma_net_effect_empty(Account::Freelancer);
                },
                _ => {},
            }
        } else {
            lemma_net_effect_empty(Account::Hirer);
            lemma_net_effect_empty(Account::Freelancer);
        }
    }
}

/// Conservation from creation on: the value that the creation placed in
/// custody is the value that has left custody since, plus the value that
/// the record still holds there. Once the record is settled, what entered
/// custody is what left it.
pub proof fn law_lifetime_conservation(
    ctx: InitializeEscrow,
    job_id: String,
    amount: u64,
    deadline: i64,
    now: i64,
    requests: Seq<Request>,
)
    requires
        creation_refusal(&ctx, job_id@, amount) is None,
    ensures
        ({
            let start = created(&ctx, job_id, amount, deadline, now);
            let end = run(start, requests);
            &&& net_effect(funding_legs(amount), Account::Custody) == total_outflow(start, requests)
                + end.in_custody()
            &&& end.status.is_settled() ==> net_effect(funding_legs(amount), Account::Custody)
                == total_outflow(start, requests)
            &&& end.amount == amount
        }),
{
    let start = created(&ctx, job_id, amount, deadline, now);
    law_creation_funds_custody(ctx, job_id, amount, deadline, now);
    law_conservation(start, requests);
    law_terms_never_change(start, requests);
}

/// No operation changes the parties, the job identifier, the amount, the
/// deadline or the time of creation.
pub proof fn law_terms_never_change(escrow: Escrow, requests: Seq<Request>)
    ensures
        run(escrow, requests).same_terms(&escrow),
    decreases requests.len(),
{
    if requests.len() > 0 {
        law_terms_never_change(escrow, requests.drop_last());
    }
}

/// Terminality: on a settled record every request is refused with
/// `AlreadyReleased`, leaves the record as it was and moves no funds.
pub proof fn law_settled_is_terminal(escrow: Escrow, request: Request)
    requires
        escrow.status.is_settled(),
    ensures
        refusal(escrow, request) == Some(EscrowError::AlreadyReleased),
        step(escrow, request) == escrow,
        moved(escrow, request) == Seq::<Transfer>::empty(),
        custody_outflow(moved(escrow, request)) == 0,
{
    lemma_net_effect_empty(Account::Custody);
}

/// Terminality over a run: a settled record is the same after any run of
/// requests, and no value leaves custody.
pub proof fn law_settled_stays_settled(escrow: Escrow, requests: Seq<Request>)
    ensures
        escrow.status.is_settled() ==> run(escrow, requests) == escrow && total_outflow(
            escrow,
            requests,
        ) == 0,
    decreases requests.len(),
{
    if requests.len() > 0 && escrow.status.is_settled() {
        law_settled_stays_settled(escrow, requests.drop_last());
        law_settled_is_terminal(escrow, requests.last());
    }
}

/// Authorization of a release: on an active record, a release is refused
/// with `UnauthorizedRelease` exactly when the caller is neither the
/// recorded hirer nor the platform admin.
pub proof fn law_release_is_for_hirer_or_admin(escrow: Escrow, ctx: ReleasePayment)
    requires
        escrow.status == Status::Active,
    ensures
        (ctx.signer@ != escrow.hirer@ && ctx.signer@ != ctx.platform_admin@) <==> release_refusal(
            &escrow,
            &ctx,
        ) == Some(EscrowError::UnauthorizedRelease),
        (ctx.signer@ == escrow.hirer@ || ctx.signer@ == ctx.platform_admin@) <==> release_refusal(
            &escrow,
            &ctx,
        ) is None,
{
}

/// Authorization of a dispute: on an active record, a dispute is refused
/// with `UnauthorizedDispute` exactly when the caller is neither the
/// recorded hirer nor the recorded freelancer, whatever the reason; it
/// passes the guards exactly when the caller is one of the two and the
/// reason is within its cap.
pub proof fn law_dispute_is_for_the_parties(escrow: Escrow, ctx: InitiateDispute, reason: String)
    requires
        escrow.status == Status::Active,
    ensures
        (ctx.signer@ != escrow.hirer@ && ctx.signer@ != escrow.freelancer@) <==> dispute_refusal(
            &escrow,
            &ctx,
            reason@,
        ) == Some(EscrowError::UnauthorizedDispute),
        ((ctx.signer@ == escrow.hirer@ || ctx.signer@ == escrow.freelancer@) && byte_len(reason@)
            <= MAX_DISPUTE_REASON_LEN) <==> dispute_refusal(&escrow, &ctx, reason@) is None,
{
}

/// Authorization of a resolution: on a disputed record, a resolution is
/// refused with `UnauthorizedResolution` exactly when the caller is not
/// the platform admin, whatever the split and whoever else the caller is;
/// a refused resolution moves nothing and leaves the record as it was.
pub proof fn law_resolution_is_for_the_admin(
    escrow: Escrow,
    ctx: ResolveDispute,
    hirer_amount: u64,
    freelancer_amount: u64,
    completed: usize,
    now: i64,
)
    requires
        escrow.status == Status::Disputed,
    ensures
        ctx.signer@ != ctx.platform_admin@ <==> resolution_refusal(
            &escrow,
            &ctx,
            hirer_amount,
            freelancer_amount,
        ) == Some(EscrowError::UnauthorizedResolution),
        ctx.signer@ != ctx.platform_admin@ ==> ({
            let request = Request::Resolve { ctx, hirer_amount, freelancer_amount, completed, now };
            step(escrow, request) == escrow && moved(escrow, request) == Seq::<Transfer>::empty()
        }),
{
}

/// Authorization of an emergency refund: on an unsettled record, a refund
/// is refused with `UnauthorizedRefund` exactly when the caller is not the
/// platform admin, whoever else the caller is; a refused refund moves
/// nothing and leaves the record as it was.
pub proof fn law_refund_is_for_the_admin(
    escrow: Escrow,
    ctx: EmergencyRefund,
    completed: usize,
    now: i64,
)
    requires
        !escrow.status.is_settled(),
    ensures
        ctx.signer@ != ctx.platform_admin@ <==> refund_refusal(&escrow, &ctx) == Some(
            EscrowError::UnauthorizedRefund,
        ),
        ctx.signer@ != ctx.platform_admin@ ==> ({
            let request = Request::Refund { ctx, completed, now };
            step(escrow, request) == escrow && moved(escrow, request) == Seq::<Transfer>::empty()
        }),
{
}

/// When a resolution commits: exactly when a dispute is pending, the
/// caller is the platform admin, the two parts add up to the amount and
/// every planned transfer was carried out. It then settles the record.
pub proof fn law_resolution_commits_exactly_when(
    escrow: Escrow,
    ctx: ResolveDispute,
    hirer_amount: u64,
    freelancer_amount: u64,
    completed: usize,
    now: i64,
)
    ensures
        ({
            let request = Request::Resolve { ctx, hirer_amount, freelancer_amount, completed, now };
            &&& commits(escrow, request) <==> (escrow.status == Status::Disputed && ctx.signer@
                == ctx.platform_admin@ && hirer_amount + freelancer_amount == escrow.amount
                && completed == resolution_legs(hirer_amount, freelancer_amount).len())
            &&& commits(escrow, request) <==> (step(escrow, request).status.is_settled()
                && !escrow.status.is_settled())
            &&& !commits(escrow, request) ==> step(escrow, request) == escrow
        }),
{
}

/// When an emergency refund commits: exactly when the record is unsettled,
/// the caller is the platform admin and the transfer was carried out. It
/// then settles the record.
pub proof fn law_refund_commits_exactly_when(
    escrow: Escrow,
    ctx: EmergencyRefund,
    completed: usize,
    now: i64,
)
    ensures
        ({
            let request = Request::Refund { ctx, completed, now };
            &&& commits(escrow, request) <==> (!escrow.status.is_settled() && ctx.signer@
                == ctx.platform_admin@ && completed == 1)
            &&& commits(escrow, request) <==> (step(escrow, request).status.is_settled()
                && !escrow.status.is_settled())
            &&& !commits(escrow, request) ==> step(escrow, request) == escrow
        }),
{
}

/// A creation succeeds only with a positive amount, two distinct parties
/// and a job identifier within its cap; any other creation is refused
/// before a transfer is planned.
pub proof fn law_creation_validates_its_input(
    ctx: InitializeEscrow,
    job_id: String,
    amount: u64,
)
    ensures
        creation_refusal(&ctx, job_id@, amount) is None <==> (!ctx.record_exists && amount > 0
            && ctx.hirer@ != ctx.freelancer@ && byte_len(job_id@) <= MAX_JOB_ID_LEN),
        amount == 0 ==> creation_refusal(&ctx, job_id@, amount) is Some,
        byte_len(job_id@) > MAX_JOB_ID_LEN ==> creation_refusal(&ctx, job_id@, amount) is Some,
        ctx.hirer@ == ctx.freelancer@ ==> creation_refusal(&ctx, job_id@, amount) is Some,
{
}

/// Mutual exclusion: while a dispute is pending every release is refused
/// with `InDispute`, whoever asks; while none is pending on an active
/// record every resolution is refused with `NotInDispute`, whatever the
/// parts.
pub proof fn law_dispute_excludes_release(
    escrow: Escrow,
    ctx: ReleasePayment,
    resolution: ResolveDispute,
    hirer_amount: u64,
    freelancer_amount: u64,
)
    ensures
        escrow.status == Status::Disputed ==> release_refusal(&escrow, &ctx) == Some(
            EscrowError::InDispute,
        ),
        escrow.status == Status::Active ==> resolution_refusal(
            &escrow,
            &resolution,
            hirer_amount,
            freelancer_amount,
        ) == Some(EscrowError::NotInDispute),
{
}

/// Every guard comes before any fund movement, and the state guards come
/// before the others: a refusal by the guards is a state guard, an
/// authorization denial, an invalid split or an overlong reason, never a
/// failed transfer; the authorization is consulted on an unsettled record
/// only, and the split on a disputed one, for the admin.
pub proof fn law_guards_in_order(escrow: Escrow, request: Request)
    requires
        refusal(escrow, request) is Some,
    ensures
        ({
            let e = refusal(escrow, request).unwrap();
            &&& e.is_state_guard() || e.is_authorization_denial() || e
                == EscrowError::InvalidSplitAmount || e == EscrowError::ReasonTooLong
            &&& e.is_authorization_denial() ==> !escrow.status.is_settled()
            &&& e == EscrowError::InvalidSplitAmount ==> escrow.status == Status::Disputed
            &&& e == EscrowError::ReasonTooLong ==> escrow.status == Status::Active
            &&& moved(escrow, request) == Seq::<Transfer>::empty()
            &&& step(escrow, request) == escrow
        }),
{
}

/// The emergency refund passes the dispute gate: for the platform admin it
/// is refused on a settled record and on no other.
pub proof fn law_refund_bypasses_dispute(escrow: Escrow, ctx: EmergencyRefund)
    requires
        ctx.signer@ == ctx.platform_admin@,
    ensures
        refund_refusal(&escrow, &ctx) is None <==> !escrow.status.is_settled(),
{
}

/// Atomicity: a record changes only where the guards let the request pass
/// and the adapter carried out every planned transfer. In particular a
/// record never comes to read settled while a planned transfer is
/// outstanding.
pub proof fn law_commit_is_all_or_nothing(escrow: Escrow, request: Request)
    ensures
        step(escrow, request) != escrow ==> refusal(escrow, request) is None && moved(
            escrow,
            request,
        ) == planned(escrow, request),
        !commits(escrow, request) ==> step(escrow, request) == escrow && moved(escrow, request)
            == Seq::<Transfer>::empty(),
        !escrow.status.is_settled() && step(escrow, request).status.is_settled() ==> commits(
            escrow,
            request,
        ),
{
}

/// The lifecycle has no way back: a record leaves `Active` only for
/// `Disputed` or `Released`, leaves `Disputed` only for `Released`, and
/// no request produces `Refunded`. A well-formed record stays well-formed.
pub proof fn law_transitions(escrow: Escrow, request: Request)
    ensures
        step(escrow, request).status == escrow.status || match escrow.status {
            Status::Active => step(escrow, request).status == Status::Disputed || step(
                escrow,
                request,
            ).status == Status::Released,
            Status::Disputed => step(escrow, request).status == Status::Released,
            Status::Released => false,
            Status::Refunded => false,
        },
        escrow.well_formed() ==> step(escrow, request).well_formed(),
{
}

} // verus!
