use taskfi_escrow::context::{
    EmergencyRefund, InitializeEscrow, InitiateDispute, ReleasePayment, ResolveDispute,
};
use taskfi_escrow::controller::{
    emergency_refund, funding_plan, initialize_escrow, initiate_dispute, refund_plan,
    release_payment, release_plan, resolution_plan, resolve_dispute,
};
use taskfi_escrow::error::EscrowError;
use taskfi_escrow::escrow::{Escrow, Status};
use taskfi_escrow::events::{
    DisputeInitiated, DisputeResolved, EmergencyRefundIssued, EscrowCreated, PaymentReleased,
};
use taskfi_escrow::identity::Identity;
use taskfi_escrow::transfer::{Account, Transfer};

const T: i64 = 1_700_000_000;
const NOW: i64 = 1_600_000_000;

fn id(tag: u8) -> Identity {
    Identity::new([tag; 32])
}

fn hirer() -> Identity {
    id(1)
}

fn freelancer() -> Identity {
    id(2)
}

fn admin() -> Identity {
    id(3)
}

fn record_key() -> Identity {
    id(9)
}

fn by_admin() -> ResolveDispute {
    ResolveDispute { escrow_key: record_key(), signer: admin(), platform_admin: admin() }
}

/// A stand-in for the fund transfer adapter: three balances, and transfers
/// that fail as a whole when the paying account holds too little or when
/// the test tells them to.
#[derive(Clone, Copy, Debug, PartialEq, Eq)]
struct Ledger {
    hirer: u64,
    freelancer: u64,
    custody: u64,
    /// The transfer at this position in a plan is made to fail.
    fail_at: Option<usize>,
}

impl Ledger {
    fn new(hirer: u64) -> Ledger {
        Ledger { hirer, freelancer: 0, custody: 0, fail_at: None }
    }

    fn balance(&mut self, account: Account) -> &mut u64 {
        match account {
            Account::Hirer => &mut self.hirer,
            Account::Freelancer => &mut self.freelancer,
            Account::Custody => &mut self.custody,
        }
    }

    fn transfer(&mut self, leg: &Transfer) -> bool {
        if *self.balance(leg.from) < leg.amount {
            return false;
        }
        *self.balance(leg.from) -= leg.amount;
        *self.balance(leg.to) += leg.amount;
        true
    }

    /// Carries out the transfers in order, stops at the first failure, and
    /// says how many were carried out.
    fn carry_out(&mut self, plan: &[Transfer]) -> usize {
        let mut done = 0;
        for leg in plan {
            if self.fail_at == Some(done) || !self.transfer(leg) {
                break;
            }
            done += 1;
        }
        done
    }

    fn total(&self) -> u64 {
        self.hirer + self.freelancer + self.custody
    }
}

fn create(ledger: &mut Ledger, job_id: &str, amount: u64, deadline: i64) -> Result<Escrow, EscrowError> {
    let ctx = InitializeEscrow {
        escrow_key: record_key(),
        hirer: hirer(),
        freelancer: freelancer(),
        record_exists: false,
    };
    let before = *ledger;
    let plan = funding_plan(&ctx, job_id, amount)?;
    let done = ledger.carry_out(&plan);
    match initialize_escrow(&ctx, job_id.to_string(), amount, deadline, done, NOW) {
        Ok((escrow, _)) => Ok(escrow),
        Err(e) => {
            *ledger = before;
            Err(e)
        }
    }
}

fn release(ledger: &mut Ledger, escrow: &mut Escrow, signer: Identity) -> Result<PaymentReleased, EscrowError> {
    let ctx = ReleasePayment { escrow_key: record_key(), signer, platform_admin: admin() };
    let before = *ledger;
    let plan = release_plan(escrow, &ctx)?;
    let done = ledger.carry_out(&plan);
    let r = release_payment(escrow, &ctx, done, NOW + 10);
    if r.is_err() {
        *ledger = before;
    }
    r
}

fn dispute(escrow: &mut Escrow, signer: Identity, reason: &str) -> Result<DisputeInitiated, EscrowError> {
    let ctx = InitiateDispute { escrow_key: record_key(), signer };
    initiate_dispute(escrow, &ctx, reason.to_string(), NOW + 5)
}

fn resolve(ledger: &mut Ledger, escrow: &mut Escrow, hirer_amount: u64, freelancer_amount: u64) -> Result<DisputeResolved, EscrowError> {
    let ctx = ResolveDispute { escrow_key: record_key(), signer: admin(), platform_admin: admin() };
    let before = *ledger;
    let plan = resolution_plan(escrow, &ctx, hirer_amount, freelancer_amount)?;
    let done = ledger.carry_out(&plan);
    let r = resolve_dispute(escrow, &ctx, hirer_amount, freelancer_amount, done, NOW + 20);
    if r.is_err() {
        *ledger = before;
    }
    r
}

fn refund(ledger: &mut Ledger, escrow: &mut Escrow) -> Result<EmergencyRefundIssued, EscrowError> {
    let ctx = EmergencyRefund { escrow_key: record_key(), signer: admin(), platform_admin: admin() };
    let before = *ledger;
    let plan = refund_plan(escrow, &ctx)?;
    let done = ledger.carry_out(&plan);
    let r = emergency_refund(escrow, &ctx, done, NOW + 30);
    if r.is_err() {
        *ledger = before;
    }
    r
}

#[test]
fn happy_path_releases_to_freelancer() {
    let mut ledger = Ledger::new(5000);
    let mut escrow = create(&mut ledger, "job-1", 1000, T).unwrap();
    assert_eq!(escrow.status, Status::Active);
    assert_eq!(escrow.job_id, "job-1");
    assert_eq!(escrow.amount, 1000);
    assert_eq!(escrow.deadline, T);
    assert_eq!(escrow.created_at, NOW);
    assert_eq!(escrow.hirer, hirer());
    assert_eq!(escrow.freelancer, freelancer());
    assert_eq!(escrow.dispute_reason, None);
    assert_eq!(escrow.disputed_at, None);
    assert_eq!(escrow.released_at, None);
    assert_eq!((ledger.hirer, ledger.custody, ledger.freelancer), (4000, 1000, 0));

    let event = release(&mut ledger, &mut escrow, hirer()).unwrap();
    assert_eq!(
        event,
        PaymentReleased {
            escrow: record_key(),
            freelancer: freelancer(),
            amount: 1000,
            released_by: hirer(),
        }
    );
    assert_eq!(ledger.freelancer, 1000);
    assert_eq!(ledger.custody, 0);
    assert_eq!(ledger.hirer, 4000);
    assert_eq!(escrow.status, Status::Released);
    assert_eq!(escrow.released_at, Some(NOW + 10));
    assert!(escrow.is_released());
}

#[test]
fn creation_event_carries_the_creation_details() {
    let ctx = InitializeEscrow {
        escrow_key: record_key(),
        hirer: hirer(),
        freelancer: freelancer(),
        record_exists: false,
    };
    let (escrow, event) = initialize_escrow(&ctx, "job-1".to_string(), 1000, T, 1, NOW).unwrap();
    assert_eq!(
        event,
        EscrowCreated {
            escrow: record_key(),
            hirer: hirer(),
            freelancer: freelancer(),
            job_id: "job-1".to_string(),
            amount: 1000,
            deadline: T,
        }
    );
    assert_eq!(
        escrow,
        Escrow {
            hirer: hirer(),
            freelancer: freelancer(),
            job_id: "job-1".to_string(),
            amount: 1000,
            deadline: T,
            status: Status::Active,
            dispute_reason: None,
            created_at: NOW,
            released_at: None,
            disputed_at: None,
        }
    );
}

#[test]
fn release_by_admin_is_allowed() {
    let mut ledger = Ledger::new(1000);
    let mut escrow = create(&mut ledger, "job-1", 1000, T).unwrap();
    let event = release(&mut ledger, &mut escrow, admin()).unwrap();
    assert_eq!(event.released_by, admin());
    assert_eq!(ledger.freelancer, 1000);
    assert_eq!(escrow.status, Status::Released);
}

#[test]
fn dispute_split_pays_both_parties() {
    let mut ledger = Ledger::new(1000);
    let mut escrow = create(&mut ledger, "job-2", 1000, T).unwrap();
    assert_eq!(ledger.hirer, 0);

    let raised = dispute(&mut escrow, freelancer(), "quality issue").unwrap();
    assert_eq!(
        raised,
        DisputeInitiated {
            escrow: record_key(),
            initiated_by: freelancer(),
            reason: "quality issue".to_string(),
        }
    );
    assert_eq!(escrow.status, Status::Disputed);
    assert!(escrow.is_disputed());
    assert_eq!(escrow.dispute_reason, Some("quality issue".to_string()));
    assert_eq!(escrow.disputed_at, Some(NOW + 5));
    assert_eq!(ledger.custody, 1000);

    let resolved = resolve(&mut ledger, &mut escrow, 400, 600).unwrap();
    assert_eq!(
        resolved,
        DisputeResolved {
            escrow: record_key(),
            hirer_amount: 400,
            freelancer_amount: 600,
            resolved_by: admin(),
        }
    );
    assert_eq!(ledger.hirer, 400);
    assert_eq!(ledger.freelancer, 600);
    assert_eq!(ledger.custody, 0);
    assert_eq!(escrow.status, Status::Released);
    assert_eq!(escrow.released_at, Some(NOW + 20));
    assert_eq!(escrow.dispute_reason, Some("quality issue".to_string()));
}

#[test]
fn resolution_plan_pays_freelancer_first() {
    let mut ledger = Ledger::new(1000);
    let mut escrow = create(&mut ledger, "job-2", 1000, T).unwrap();
    dispute(&mut escrow, hirer(), "late").unwrap();
    let plan = resolution_plan(&escrow, &by_admin(), 400, 600).unwrap();
    assert_eq!(
        plan,
        vec![
            Transfer { from: Account::Custody, to: Account::Freelancer, amount: 600 },
            Transfer { from: Account::Custody, to: Account::Hirer, amount: 400 },
        ]
    );
}

#[test]
fn invalid_split_is_refused_and_changes_nothing() {
    let mut ledger = Ledger::new(1000);
    let mut escrow = create(&mut ledger, "job-3", 1000, T).unwrap();
    dispute(&mut escrow, hirer(), "scope").unwrap();
    let before = escrow.clone();
    let ledger_before = ledger;

    assert_eq!(resolve(&mut ledger, &mut escrow, 400, 700), Err(EscrowError::InvalidSplitAmount));
    assert_eq!(escrow, before);
    assert_eq!(ledger, ledger_before);
    assert_eq!(resolution_plan(&escrow, &by_admin(), 400, 700), Err(EscrowError::InvalidSplitAmount));
    assert_eq!(resolve(&mut ledger, &mut escrow, 400, 500), Err(EscrowError::InvalidSplitAmount));
    assert_eq!(escrow, before);
}

#[test]
fn split_whose_sum_overflows_is_invalid() {
    let mut ledger = Ledger::new(1000);
    let mut escrow = create(&mut ledger, "job-3", 1000, T).unwrap();
    dispute(&mut escrow, hirer(), "scope").unwrap();
    let before = escrow.clone();
    // 1001 + (2^64 - 1) wraps to 1000
    assert_eq!(
        resolve(&mut ledger, &mut escrow, 1001, u64::MAX),
        Err(EscrowError::InvalidSplitAmount)
    );
    assert_eq!(escrow, before);
    assert_eq!(ledger.custody, 1000);
}

#[test]
fn split_with_a_zero_part_makes_one_transfer() {
    let mut ledger = Ledger::new(1000);
    let mut escrow = create(&mut ledger, "job-4", 1000, T).unwrap();
    dispute(&mut escrow, hirer(), "never delivered").unwrap();
    assert_eq!(
        resolution_plan(&escrow, &by_admin(), 1000, 0).unwrap(),
        vec![Transfer { from: Account::Custody, to: Account::Hirer, amount: 1000 }]
    );
    assert_eq!(
        resolution_plan(&escrow, &by_admin(), 0, 1000).unwrap(),
        vec![Transfer { from: Account::Custody, to: Account::Freelancer, amount: 1000 }]
    );
    resolve(&mut ledger, &mut escrow, 1000, 0).unwrap();
    assert_eq!((ledger.hirer, ledger.freelancer, ledger.custody), (1000, 0, 0));
    assert_eq!(escrow.status, Status::Released);
}

#[test]
fn emergency_refund_overrides_a_dispute() {
    let mut ledger = Ledger::new(1000);
    let mut escrow = create(&mut ledger, "job-5", 1000, T).unwrap();
    dispute(&mut escrow, freelancer(), "unpaid extras").unwrap();
    assert_eq!(escrow.status, Status::Disputed);

    let event = refund(&mut ledger, &mut escrow).unwrap();
    assert_eq!(
        event,
        EmergencyRefundIssued { escrow: record_key(), amount: 1000, refunded_by: admin() }
    );
    assert_eq!(ledger.hirer, 1000);
    assert_eq!(ledger.freelancer, 0);
    assert_eq!(ledger.custody, 0);
    assert_eq!(escrow.status, Status::Released);
    assert_eq!(escrow.released_at, Some(NOW + 30));
}

#[test]
fn emergency_refund_works_on_an_active_record() {
    let mut ledger = Ledger::new(1000);
    let mut escrow = create(&mut ledger, "job-5", 1000, T).unwrap();
    refund(&mut ledger, &mut escrow).unwrap();
    assert_eq!(ledger.hirer, 1000);
    assert_eq!(escrow.status, Status::Released);
    assert_eq!(escrow.dispute_reason, None);
}

#[test]
fn value_is_conserved_over_a_lifetime() {
    let mut ledger = Ledger::new(2500);
    let mut escrow = create(&mut ledger, "job-6", 1000, T).unwrap();
    assert_eq!(ledger.total(), 2500);
    assert_eq!(ledger.custody, 1000);
    dispute(&mut escrow, hirer(), "x").unwrap();
    assert_eq!(ledger.custody, 1000);
    resolve(&mut ledger, &mut escrow, 250, 750).unwrap();
    assert_eq!(ledger.total(), 2500);
    assert_eq!(ledger.custody, 0);
    assert_eq!(ledger.hirer + ledger.freelancer, 2500);
    assert_eq!(ledger.hirer, 1750);
    assert_eq!(ledger.freelancer, 750);
}

#[test]
fn released_record_refuses_everything_and_moves_nothing() {
    let mut ledger = Ledger::new(1000);
    let mut escrow = create(&mut ledger, "job-7", 1000, T).unwrap();
    release(&mut ledger, &mut escrow, hirer()).unwrap();
    // put value back into custody, to show that none of it can be moved
    ledger.custody = 1000;
    let before = escrow.clone();
    let ledger_before = ledger;

    assert_eq!(release(&mut ledger, &mut escrow, hirer()), Err(EscrowError::AlreadyReleased));
    assert_eq!(release(&mut ledger, &mut escrow, id(77)), Err(EscrowError::AlreadyReleased));
    assert_eq!(dispute(&mut escrow, freelancer(), "late"), Err(EscrowError::AlreadyReleased));
    assert_eq!(resolve(&mut ledger, &mut escrow, 400, 600), Err(EscrowError::AlreadyReleased));
    assert_eq!(resolve(&mut ledger, &mut escrow, 400, 700), Err(EscrowError::AlreadyReleased));
    assert_eq!(refund(&mut ledger, &mut escrow), Err(EscrowError::AlreadyReleased));
    assert_eq!(escrow, before);
    assert_eq!(ledger, ledger_before);
}

#[test]
fn resolved_record_is_terminal_too() {
    let mut ledger = Ledger::new(1000);
    let mut escrow = create(&mut ledger, "job-7", 1000, T).unwrap();
    dispute(&mut escrow, hirer(), "late").unwrap();
    resolve(&mut ledger, &mut escrow, 400, 600).unwrap();
    let before = escrow.clone();
    assert_eq!(resolve(&mut ledger, &mut escrow, 400, 600), Err(EscrowError::AlreadyReleased));
    assert_eq!(refund(&mut ledger, &mut escrow), Err(EscrowError::AlreadyReleased));
    assert_eq!(release(&mut ledger, &mut escrow, admin()), Err(EscrowError::AlreadyReleased));
    assert_eq!(dispute(&mut escrow, hirer(), "again"), Err(EscrowError::AlreadyReleased));
    assert_eq!(escrow, before);
    assert_eq!((ledger.hirer, ledger.freelancer, ledger.custody), (400, 600, 0));
}

#[test]
fn failure_between_the_two_parts_commits_nothing() {
    let mut ledger = Ledger::new(1000);
    let mut escrow = create(&mut ledger, "job-8", 1000, T).unwrap();
    dispute(&mut escrow, hirer(), "late").unwrap();
    let before = escrow.clone();
    let ledger_before = ledger;

    // the freelancer's part goes through, the hirer's part fails
    ledger.fail_at = Some(1);
    assert_eq!(resolve(&mut ledger, &mut escrow, 400, 600), Err(EscrowError::TransferFailed));
    assert_eq!(escrow, before);
    assert_eq!(escrow.status, Status::Disputed);
    assert_eq!(escrow.released_at, None);
    assert_eq!(ledger.custody, ledger_before.custody);
    assert_eq!(ledger.freelancer, 0);

    // the same request succeeds once the adapter works
    ledger.fail_at = None;
    resolve(&mut ledger, &mut escrow, 400, 600).unwrap();
    assert_eq!((ledger.hirer, ledger.freelancer, ledger.custody), (400, 600, 0));
}

#[test]
fn resolution_counts_the_transfers_it_planned() {
    let ctx = ResolveDispute { escrow_key: record_key(), signer: admin(), platform_admin: admin() };
    let mut ledger = Ledger::new(1000);
    let mut escrow = create(&mut ledger, "job-8", 1000, T).unwrap();
    dispute(&mut escrow, hirer(), "late").unwrap();
    let before = escrow.clone();
    assert_eq!(resolve_dispute(&mut escrow, &ctx, 400, 600, 0, NOW), Err(EscrowError::TransferFailed));
    assert_eq!(resolve_dispute(&mut escrow, &ctx, 400, 600, 1, NOW), Err(EscrowError::TransferFailed));
    assert_eq!(resolve_dispute(&mut escrow, &ctx, 400, 600, 3, NOW), Err(EscrowError::TransferFailed));
    assert_eq!(resolve_dispute(&mut escrow, &ctx, 1000, 0, 2, NOW), Err(EscrowError::TransferFailed));
    assert_eq!(escrow, before);
    assert!(resolve_dispute(&mut escrow, &ctx, 1000, 0, 1, NOW).is_ok());
    assert_eq!(escrow.status, Status::Released);
}

#[test]
fn underfunded_creation_creates_no_record() {
    let mut ledger = Ledger::new(999);
    assert_eq!(create(&mut ledger, "job-9", 1000, T), Err(EscrowError::TransferFailed));
    assert_eq!((ledger.hirer, ledger.custody), (999, 0));
}

#[test]
fn failed_release_and_refund_leave_the_record_active() {
    let mut ledger = Ledger::new(1000);
    let mut escrow = create(&mut ledger, "job-9", 1000, T).unwrap();
    let before = escrow.clone();
    ledger.fail_at = Some(0);
    assert_eq!(release(&mut ledger, &mut escrow, hirer()), Err(EscrowError::TransferFailed));
    assert_eq!(refund(&mut ledger, &mut escrow), Err(EscrowError::TransferFailed));
    assert_eq!(escrow, before);
    assert_eq!(ledger.custody, 1000);
}

#[test]
fn resolution_by_a_party_moves_nothing() {
    let mut ledger = Ledger::new(1000);
    let mut escrow = create(&mut ledger, "job-10", 1000, T).unwrap();
    dispute(&mut escrow, freelancer(), "late").unwrap();
    let before = escrow.clone();
    for caller in [hirer(), freelancer(), id(77)] {
        let ctx = ResolveDispute { escrow_key: record_key(), signer: caller, platform_admin: admin() };
        assert_eq!(
            resolution_plan(&escrow, &ctx, 400, 600),
            Err(EscrowError::UnauthorizedResolution)
        );
        assert_eq!(
            resolve_dispute(&mut escrow, &ctx, 400, 600, 2, NOW),
            Err(EscrowError::UnauthorizedResolution)
        );
        // the authorization comes before the sum
        assert_eq!(
            resolve_dispute(&mut escrow, &ctx, 400, 700, 2, NOW),
            Err(EscrowError::UnauthorizedResolution)
        );
    }
    assert_eq!(escrow, before);
    assert_eq!((ledger.hirer, ledger.freelancer, ledger.custody), (0, 0, 1000));
}

#[test]
fn emergency_refund_by_the_hirer_moves_nothing() {
    let mut ledger = Ledger::new(1000);
    let mut escrow = create(&mut ledger, "job-11", 1000, T).unwrap();
    let before = escrow.clone();
    for caller in [hirer(), freelancer(), id(77)] {
        let ctx = EmergencyRefund { escrow_key: record_key(), signer: caller, platform_admin: admin() };
        assert_eq!(refund_plan(&escrow, &ctx), Err(EscrowError::UnauthorizedRefund));
        assert_eq!(
            emergency_refund(&mut escrow, &ctx, 1, NOW),
            Err(EscrowError::UnauthorizedRefund)
        );
    }
    assert_eq!(escrow, before);
    dispute(&mut escrow, hirer(), "late").unwrap();
    let ctx = EmergencyRefund { escrow_key: record_key(), signer: hirer(), platform_admin: admin() };
    assert_eq!(emergency_refund(&mut escrow, &ctx, 1, NOW), Err(EscrowError::UnauthorizedRefund));
    assert_eq!(escrow.status, Status::Disputed);
    assert_eq!((ledger.hirer, ledger.freelancer, ledger.custody), (0, 0, 1000));
}

#[test]
fn creation_with_bad_input_creates_nothing() {
    let mut ledger = Ledger::new(1000);
    assert_eq!(create(&mut ledger, "job-12", 0, T), Err(EscrowError::InvalidAmount));
    assert_eq!(
        create(&mut ledger, &"j".repeat(65), 1000, T),
        Err(EscrowError::JobIdTooLong)
    );
    assert_eq!((ledger.hirer, ledger.custody), (1000, 0));
    assert!(create(&mut ledger, &"j".repeat(64), 1000, T).is_ok());
    assert_eq!((ledger.hirer, ledger.custody), (0, 1000));
}

#[test]
fn overlong_reason_leaves_the_record_active() {
    let mut ledger = Ledger::new(1000);
    let mut escrow = create(&mut ledger, "job-13", 1000, T).unwrap();
    let before = escrow.clone();
    assert_eq!(
        dispute(&mut escrow, hirer(), &"r".repeat(201)),
        Err(EscrowError::ReasonTooLong)
    );
    assert_eq!(escrow, before);
    // the authorization comes before the cap
    assert_eq!(
        dispute(&mut escrow, id(77), &"r".repeat(201)),
        Err(EscrowError::UnauthorizedDispute)
    );
    assert!(dispute(&mut escrow, hirer(), &"r".repeat(200)).is_ok());
    assert_eq!(escrow.status, Status::Disputed);
    // the state guard comes before the cap
    assert_eq!(
        dispute(&mut escrow, hirer(), &"r".repeat(201)),
        Err(EscrowError::AlreadyDisputed)
    );
}
