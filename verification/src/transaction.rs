//! Types that model transactions, i.e. [`Deposit`]s and [`Withdrawal`]s.
use vstd::prelude::*;
use crate::amount::Amount;
use crate::client::Transition;
use crate::ClientId;

verus! {

/// Models a deposit.
#[derive(Clone, Copy, Debug)]
pub struct Deposit {
    pub client: ClientId,
    pub amount: Amount,
    pub has_dispute: bool,
}

/// Models a withdrawal.
#[derive(Clone, Copy, Debug)]
pub struct Withdrawal {
    pub client: ClientId,
    pub amount: Amount,
    pub has_dispute: bool,
}

/// The different types of transactions of the payment engine.
pub enum Transaction {
    Deposit(Deposit),
    Withdrawal(Withdrawal),
}

impl Transaction {
    /// The client whose funds the transaction moved.
    pub open spec fn client(self) -> ClientId {
        match self {
            Transaction::Deposit(d) => d.client,
            Transaction::Withdrawal(w) => w.client,
        }
    }

    /// The amount that the transaction moved.
    pub open spec fn amount(self) -> Amount {
        match self {
            Transaction::Deposit(d) => d.amount,
            Transaction::Withdrawal(w) => w.amount,
        }
    }

    /// Whether the transaction is under dispute.
    pub open spec fn has_dispute(self) -> bool {
        match self {
            Transaction::Deposit(d) => d.has_dispute,
            Transaction::Withdrawal(w) => w.has_dispute,
        }
    }

    /// The same transaction with its dispute flag set to `flag`.
    pub open spec fn with_dispute(self, flag: bool) -> Transaction {
        match self {
            Transaction::Deposit(d) => Transaction::Deposit(
                Deposit { client: d.client, amount: d.amount, has_dispute: flag },
            ),
            Transaction::Withdrawal(w) => Transaction::Withdrawal(
                Withdrawal { client: w.client, amount: w.amount, has_dispute: flag },
            ),
        }
    }

    /// The transition that a dispute of the transaction asks of the account:
    /// a disputed deposit leaves the available funds, a disputed withdrawal
    /// does not.
    pub open spec fn dispute(self) -> Transition {
        match self {
            Transaction::Deposit(d) => Transition::DisputeDeposit(d.amount),
            Transaction::Withdrawal(w) => Transition::DisputeWithdrawal(w.amount),
        }
    }

    /// Convenience function to create a [`Deposit`] variant.
    pub fn deposit(client: ClientId, amount: Amount) -> (r: Transaction)
        ensures
            r == Transaction::Deposit(Deposit { client, amount, has_dispute: false }),
    {
        Transaction::Deposit(Deposit { client, amount, has_dispute: false })
    }

    /// Convenience function to create a [`Withdrawal`] variant.
    pub fn withdrawal(client: ClientId, amount: Amount) -> (r: Transaction)
        ensures
            r == Transaction::Withdrawal(Withdrawal { client, amount, has_dispute: false }),
    {
        Transaction::Withdrawal(Withdrawal { client, amount, has_dispute: false })
    }
}

} // verus!
