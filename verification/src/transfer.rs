//! The fund movements that the controller asks of the transfer adapter.

use vstd::prelude::*;

verus! {

/// An account that funds move between.
#[derive(Clone, Copy, Debug, PartialEq, Eq, Hash, Structural)]
pub enum Account {
    /// The hirer's own account: funds come from it at creation and go back
    /// to it on a refund.
    Hirer,
    /// The freelancer's own account.
    Freelancer,
    /// The custody account of the job, which only the controller debits.
    Custody,
}

/// One all-or-nothing movement of `amount` from one account to another.
#[derive(Clone, Copy, Debug, PartialEq, Eq, Hash, Structural)]
pub struct Transfer {
    pub from: Account,
    pub to: Account,
    pub amount: u64,
}

/// The value that a transfer adds to an account: its amount where the
/// account receives, minus its amount where the account pays.
pub open spec fn effect_on(transfer: Transfer, account: Account) -> int {
    (if transfer.to == account { transfer.amount as int } else { 0 })
        - (if transfer.from == account { transfer.amount as int } else { 0 })
}

/// The value that a sequence of transfers, all carried out, adds to an account.
pub open spec fn net_effect(transfers: Seq<Transfer>, account: Account) -> int
    decreases transfers.len(),
{
    if transfers.len() == 0 {
        0
    } else {
        net_effect(transfers.drop_last(), account) + effect_on(transfers.last(), account)
    }
}

/// The value that leaves custody when all of the transfers are carried out.
pub open spec fn custody_outflow(transfers: Seq<Transfer>) -> int {
    -net_effect(transfers, Account::Custody)
}

/// No transfers move nothing.
pub proof fn lemma_net_effect_empty(account: Account)
    ensures
        net_effect(Seq::<Transfer>::empty(), account) == 0,
{
}

/// One transfer moves what `effect_on` says.
pub proof fn lemma_net_effect_one(t: Transfer, account: Account)
    ensures
        net_effect(seq![t], account) == effect_on(t, account),
{
    assert(seq![t].drop_last() =~= Seq::<Transfer>::empty());
    assert(seq![t].last() == t);
    reveal_with_fuel(net_effect, 2);
}

/// Two transfers move the sum of what each moves.
pub proof fn lemma_net_effect_two(a: Transfer, b: Transfer, account: Account)
    ensures
        net_effect(seq![a, b], account) == effect_on(a, account) + effect_on(b, account),
{
    assert(seq![a, b].drop_last() =~= seq![a]);
    assert(seq![a, b].last() == b);
    lemma_net_effect_one(a, account);
}

/// Transfers create no value and destroy none: what a sequence of transfers
/// adds to the three accounts adds up to nothing.
pub proof fn lemma_transfers_create_no_value(transfers: Seq<Transfer>)
    ensures
        net_effect(transfers, Account::Hirer) + net_effect(transfers, Account::Freelancer)
            + net_effect(transfers, Account::Custody) == 0,
    decreases transfers.len(),
{
    if transfers.len() > 0 {
        lemma_transfers_create_no_value(transfers.drop_last());
    }
}

} // verus!
