//! Who may trigger which operation.

use vstd::prelude::*;
use crate::escrow::Escrow;
use crate::identity::Identity;

verus! {

/// An operation on an existing record, with the admin identity that the
/// caller supplied where the rule of the operation names the admin.
#[derive(Clone, Copy, Debug, PartialEq, Eq)]
pub enum Action {
    Release { platform_admin: Identity },
    Dispute,
    Resolve { admin: Identity },
    Refund { admin: Identity },
}

/// The rule of each operation: a release is for the hirer or the admin, a
/// dispute for the hirer or the freelancer, a resolution and an emergency
/// refund for the admin.
pub open spec fn permits(caller: Identity, escrow: &Escrow, action: Action) -> bool {
    match action {
        Action::Release { platform_admin } => caller@ == escrow.hirer@ || caller@
            == platform_admin@,
        Action::Dispute => caller@ == escrow.hirer@ || caller@ == escrow.freelancer@,
        Action::Resolve { admin } => caller@ == admin@,
        Action::Refund { admin } => caller@ == admin@,
    }
}

/// Decides whether the caller may trigger the action on the record. It
/// reads the identities in the record and in the action, and nothing else.
pub fn authorize(caller: &Identity, escrow: &Escrow, action: &Action) -> (allowed: bool)
    ensures
        allowed == permits(*caller, escrow, *action),
{
    match action {
        Action::Release { platform_admin } => caller.same_as(&escrow.hirer) || caller.same_as(
            platform_admin,
        ),
        Action::Dispute => caller.same_as(&escrow.hirer) || caller.same_as(&escrow.freelancer),
        Action::Resolve { admin } => caller.same_as(admin),
        Action::Refund { admin } => caller.same_as(admin),
    }
}

} // verus!
