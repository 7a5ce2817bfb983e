//! A simple state machine to capture changes in the funds of a client.
//!
//! The machine is the spec function [`Account::step`]; [`ClientState::apply`]
//! computes it.
use vstd::prelude::*;
use crate::amount::{Amount, Fixed};

verus! {

/// Errors that can happen during state transitions.
#[derive(Debug, PartialEq, Eq)]
pub enum Error {
    /// The account is frozen: nothing changes it any more.
    ClientFrozen,
    /// The amount exceeds the available funds.
    InsufficientFunds,
}

/// The different transitions of the state machine.
#[derive(Clone, Copy, Debug)]
pub enum Transition {
    Deposit(Amount),
    Withdrawal(Amount),
    DisputeDeposit(Amount),
    DisputeWithdrawal(Amount),
    Resolve(Amount),
    Chargeback,
}

impl Transition {
    /// The amount that the transition moves, which is zero for a chargeback.
    pub open spec fn amount(self) -> Fixed {
        match self {
            Transition::Deposit(amount) => amount@,
            Transition::Withdrawal(amount) => amount@,
            Transition::DisputeDeposit(amount) => amount@,
            Transition::DisputeWithdrawal(amount) => amount@,
            Transition::Resolve(amount) => amount@,
            Transition::Chargeback => Fixed { mantissa: 0, scale: 0 },
        }
    }
}

/// The funds of one client, as numbers.
pub struct Account {
    /// Once true, no transition applies any more.
    pub frozen: bool,
    /// Funds that the client can spend.
    pub available: Fixed,
    /// Funds set aside by open disputes.
    pub held: Fixed,
}

impl Account {
    /// The account of a client that has not moved any funds yet.
    pub open spec fn empty() -> Account {
        Account {
            frozen: false,
            available: Fixed { mantissa: 0, scale: 0 },
            held: Fixed { mantissa: 0, scale: 0 },
        }
    }

    /// Both balances are valid amounts.
    pub open spec fn wf(self) -> bool {
        self.available.wf() && self.held.wf()
    }

    /// The sum of available and held funds, `None` where it overflows.
    pub open spec fn total(self) -> Option<Fixed> {
        self.available.plus(self.held)
    }

    /// The transition is computed without rounding: so is every sum and
    /// difference that it takes.
    pub open spec fn steps_exactly(self, transition: Transition) -> bool {
        match transition {
            Transition::Deposit(amount) => self.available.adds_exactly(amount@),
            Transition::Withdrawal(amount) => self.available.subtracts_exactly(amount@),
            Transition::DisputeDeposit(amount) => self.available.subtracts_exactly(amount@)
                && self.held.adds_exactly(amount@),
            Transition::DisputeWithdrawal(amount) => self.held.adds_exactly(amount@),
            Transition::Resolve(amount) => self.available.adds_exactly(amount@)
                && self.held.subtracts_exactly(amount@),
            Transition::Chargeback => true,
        }
    }

    /// The transition function of the state machine.
    ///
    /// `Some(Ok(next))` where the transition is legal, `Some(Err(e))` where
    /// it is refused, and `None` where a balance would overflow.
    pub open spec fn step(self, transition: Transition) -> Option<Result<Account, Error>> {
        if self.frozen {
            Some(Err(Error::ClientFrozen))
        } else {
            match transition {
                Transition::Chargeback => Some(
                    Ok(Account { frozen: true, available: self.available, held: self.held }),
                ),
                Transition::Deposit(amount) => match self.available.plus(amount@) {
                    Some(available) => Some(
                        Ok(Account { frozen: false, available, held: self.held }),
                    ),
                    None => None,
                },
                Transition::Withdrawal(amount) => if self.available.less_than(amount@) {
                    Some(Err(Error::InsufficientFunds))
                } else {
                    match self.available.minus(amount@) {
                        Some(available) => Some(
                            Ok(Account { frozen: false, available, held: self.held }),
                        ),
                        None => None,
                    }
                },
                Transition::DisputeDeposit(amount) => if self.available.less_than(amount@) {
                    Some(Err(Error::InsufficientFunds))
                } else {
                    match (self.available.minus(amount@), self.held.plus(amount@)) {
                        (Some(available), Some(held)) => Some(
                            Ok(Account { frozen: false, available, held }),
                        ),
                        _ => None,
                    }
                },
                Transition::DisputeWithdrawal(amount) => match self.held.plus(amount@) {
                    Some(held) => Some(
                        Ok(Account { frozen: false, available: self.available, held }),
                    ),
                    None => None,
                },
                Transition::Resolve(amount) => match (
                    self.available.plus(amount@),
                    self.held.minus(amount@),
                ) {
                    (Some(available), Some(held)) => Some(
                        Ok(Account { frozen: false, available, held }),
                    ),
                    _ => None,
                },
            }
        }
    }
}

/// [`ClientState`] is a simple state machine that captures the state of the
/// funds of a client.
///
/// The fields are private so that they can only be changed through
/// transitions of the state machine.
#[must_use]
#[derive(Debug, PartialEq)]
pub struct ClientState {
    frozen: bool,
    available: Amount,
    held: Amount,
    // The total is always the sum of `available` and `held`.
}

impl View for ClientState {
    type V = Account;

    closed spec fn view(&self) -> Account {
        Account { frozen: self.frozen, available: self.available@, held: self.held@ }
    }
}

impl Clone for ClientState {
    fn clone(&self) -> (r: ClientState)
        ensures
            r@ == self@,
    {
        ClientState { frozen: self.frozen, available: self.available, held: self.held }
    }
}

impl Default for ClientState {
    /// An unfrozen account with zero balances.
    fn default() -> (r: ClientState)
        ensures
            r@ == Account::empty(),
    {
        ClientState { frozen: false, available: Amount::zero(), held: Amount::zero() }
    }
}

impl ClientState {
    /// An account with the given balances.
    pub fn new(frozen: bool, available: Amount, held: Amount) -> (r: ClientState)
        ensures
            r@ == (Account { frozen, available: available@, held: held@ }),
    {
        ClientState { frozen, available, held }
    }

    /// Returns `true` if the client account is frozen.
    pub fn frozen(&self) -> (r: bool)
        ensures
            r == self@.frozen,
    {
        self.frozen
    }

    /// Returns funds available to the client.
    pub fn available(&self) -> (r: Amount)
        ensures
            r@ == self@.available,
    {
        self.available
    }

    /// Returns the client's funds that are currently held due to a dispute.
    pub fn held(&self) -> (r: Amount)
        ensures
            r@ == self@.held,
    {
        self.held
    }

    /// Returns the total funds of a client, which is the sum of
    /// [`Self::available()`] and [`Self::held()`].
    pub fn total(&self) -> (r: Amount)
        requires
            self@.total() is Some,
        ensures
            self@.total() == Some(r@),
    {
        self.available.checked_add(self.held).unwrap()
    }

    /// The total funds of a client, `None` where the sum overflows.
    pub fn checked_total(&self) -> (r: Option<Amount>)
        ensures
            self@.total() == (match r {
                Some(total) => Some(total@),
                None => None,
            }),
    {
        if self.available.checked_add(self.held).is_some() {
            Some(self.total())
        } else {
            None
        }
    }

    /// Whether no balance overflows under the transition.
    pub fn accepts(&self, transition: Transition) -> (r: bool)
        ensures
            r == self@.step(transition) is Some,
    {
        if self.frozen {
            return true;
        }
        match transition {
            Transition::Chargeback => true,
            Transition::Deposit(amount) => self.available.checked_add(amount).is_some(),
            Transition::Withdrawal(amount) => self.available.less_than(amount)
                || self.available.checked_sub(amount).is_some(),
            Transition::DisputeDeposit(amount) => self.available.less_than(amount) || (
            self.available.checked_sub(amount).is_some() && self.held.checked_add(
                amount,
            ).is_some()),
            Transition::DisputeWithdrawal(amount) => self.held.checked_add(amount).is_some(),
            Transition::Resolve(amount) => self.available.checked_add(amount).is_some()
                && self.held.checked_sub(amount).is_some(),
        }
    }

    /// Changes the state of funds by applying a transition.
    ///
    /// This is the state transition of the state machine: the new state
    /// where the transition is legal, the reason where it is refused.
    pub fn apply(self, transition: Transition) -> (r: Result<ClientState, Error>)
        requires
            self@.step(transition) is Some,
        ensures
            self@.step(transition) == Some(
                match r {
                    Ok(next) => Ok(next@),
                    Err(e) => Err(e),
                },
            ),
    {
        let ClientState { frozen, available, held } = self;
        if frozen {
            return Err(Error::ClientFrozen);
        }
        match transition {
            Transition::Chargeback => Ok(ClientState { frozen: true, available, held }),
            Transition::Deposit(amount) => {
                let available = available.checked_add(amount).unwrap();
                Ok(ClientState { frozen, available, held })
            },
            Transition::Withdrawal(amount) => {
                if available.less_than(amount) {
                    Err(Error::InsufficientFunds)
                } else {
                    let available = available.checked_sub(amount).unwrap();
                    Ok(ClientState { frozen, available, held })
                }
            },
            Transition::DisputeDeposit(amount) => {
                if available.less_than(amount) {
                    Err(Error::InsufficientFunds)
                } else {
                    let available = available.checked_sub(amount).unwrap();
                    let held = held.checked_add(amount).unwrap();
                    Ok(ClientState { frozen, available, held })
                }
            },
            Transition::DisputeWithdrawal(amount) => {
                let held = held.checked_add(amount).unwrap();
                Ok(ClientState { frozen, available, held })
            },
            Transition::Resolve(amount) => {
                let available = available.checked_add(amount).unwrap();
                let held = held.checked_sub(amount).unwrap();
                Ok(ClientState { frozen, available, held })
            },
        }
    }

    /// Applies a transition where no balance overflows under it.
    ///
    /// `None`, and nothing else, where one would.
    pub fn checked_apply(self, transition: Transition) -> (r: Option<Result<ClientState, Error>>)
        ensures
            self@.step(transition) == (match r {
                Some(Ok(next)) => Some(Ok(next@)),
                Some(Err(e)) => Some(Err(e)),
                None => None,
            }),
    {
        if self.accepts(transition) {
            Some(self.apply(transition))
        } else {
            None
        }
    }
}

} // verus!
