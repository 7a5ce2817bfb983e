//! The events that the engine replays, one per input row.
use vstd::prelude::*;
use crate::amount::Amount;
use crate::{ClientId, TxId};

verus! {

#[derive(Clone, Copy, Debug, PartialEq)]
pub enum Event {
    Deposit { client: ClientId, tx: TxId, amount: Amount },
    Withdrawal { client: ClientId, tx: TxId, amount: Amount },
    Dispute { client: ClientId, tx: TxId },
    Resolve { client: ClientId, tx: TxId },
    Chargeback { client: ClientId, tx: TxId },
}

impl Event {
    /// The client that the event names.
    pub open spec fn client(self) -> ClientId {
        match self {
            Event::Deposit { client, .. } => client,
            Event::Withdrawal { client, .. } => client,
            Event::Dispute { client, .. } => client,
            Event::Resolve { client, .. } => client,
            Event::Chargeback { client, .. } => client,
        }
    }

    /// The transaction that the event names.
    pub open spec fn tx(self) -> TxId {
        match self {
            Event::Deposit { tx, .. } => tx,
            Event::Withdrawal { tx, .. } => tx,
            Event::Dispute { tx, .. } => tx,
            Event::Resolve { tx, .. } => tx,
            Event::Chargeback { tx, .. } => tx,
        }
    }

    /// The event moves funds under a transaction id of its own: it is a
    /// deposit or a withdrawal. The other events refer to such a transaction.
    pub open spec fn moves_funds(self) -> bool {
        self is Deposit || self is Withdrawal
    }

    pub fn deposit(client: ClientId, tx: TxId, amount: Amount) -> (r: Event)
        ensures
            r == (Event::Deposit { client, tx, amount }),
    {
        Event::Deposit { client, tx, amount }
    }

    pub fn withdrawal(client: ClientId, tx: TxId, amount: Amount) -> (r: Event)
        ensures
            r == (Event::Withdrawal { client, tx, amount }),
    {
        Event::Withdrawal { client, tx, amount }
    }

    pub fn dispute(client: ClientId, tx: TxId) -> (r: Event)
        ensures
            r == (Event::Dispute { client, tx }),
    {
        Event::Dispute { client, tx }
    }

    pub fn resolve(client: ClientId, tx: TxId) -> (r: Event)
        ensures
            r == (Event::Resolve { client, tx }),
    {
        Event::Resolve { client, tx }
    }

    pub fn chargeback(client: ClientId, tx: TxId) -> (r: Event)
        ensures
            r == (Event::Chargeback { client, tx }),
    {
        Event::Chargeback { client, tx }
    }
}

} // verus!
