//! The rows of the input and of the report, and how they relate to events
//! and client states.
use vstd::prelude::*;
use vstd::string::StringExecFns;
use crate::amount::Amount;
use crate::client::ClientState;
use crate::event::Event;
use crate::{ClientId, TxId};

verus! {

#[derive(Debug)]
pub enum Error {
    /// The row names a transaction type that does not exist.
    InvalidTransactionType(String),
}

/// Row format of an event in the input.
#[derive(Debug, PartialEq)]
pub struct EventCsvRecord {
    pub ty: String,
    pub client: ClientId,
    pub tx: TxId,
    pub amount: Amount,
}

/// Row format of a client in the report.
#[derive(Clone, Copy, Debug, PartialEq)]
pub struct ClientCsvRecord {
    pub client: ClientId,
    pub available: Amount,
    pub held: Amount,
    pub total: Amount,
    pub locked: bool,
}

impl Clone for EventCsvRecord {
    fn clone(&self) -> (r: EventCsvRecord)
        ensures
            r == *self,
    {
        EventCsvRecord {
            ty: self.ty.clone(),
            client: self.client,
            tx: self.tx,
            amount: self.amount,
        }
    }
}

impl TryFrom<EventCsvRecord> for Event {
    type Error = Error;

    /// The event that an input row stands for. The type is one of `deposit`,
    /// `withdrawal`, `dispute`, `resolve` and `chargeback`, in lower case; the
    /// amount of the last three is ignored.
    fn try_from(value: EventCsvRecord) -> (r: Result<Event, Error>) {
        let EventCsvRecord { ty, client, tx, amount } = value;
        if ty == String::from_str("deposit") {
            Ok(Event::Deposit { client, tx, amount })
        } else if ty == String::from_str("withdrawal") {
            Ok(Event::Withdrawal { client, tx, amount })
        } else if ty == String::from_str("dispute") {
            Ok(Event::Dispute { client, tx })
        } else if ty == String::from_str("resolve") {
            Ok(Event::Resolve { client, tx })
        } else if ty == String::from_str("chargeback") {
            Ok(Event::Chargeback { client, tx })
        } else {
            Err(Error::InvalidTransactionType(ty))
        }
    }
}

impl vstd::std_specs::convert::TryFromSpecImpl<EventCsvRecord> for Event {
    open spec fn obeys_try_from_spec() -> bool {
        true
    }

    open spec fn try_from_spec(value: EventCsvRecord) -> Result<Event, Error> {
        let EventCsvRecord { ty, client, tx, amount } = value;
        if ty@ == "deposit"@ {
            Ok(Event::Deposit { client, tx, amount })
        } else if ty@ == "withdrawal"@ {
            Ok(Event::Withdrawal { client, tx, amount })
        } else if ty@ == "dispute"@ {
            Ok(Event::Dispute { client, tx })
        } else if ty@ == "resolve"@ {
            Ok(Event::Resolve { client, tx })
        } else if ty@ == "chargeback"@ {
            Ok(Event::Chargeback { client, tx })
        } else {
            Err(Error::InvalidTransactionType(ty))
        }
    }
}

impl ClientCsvRecord {
    /// The report row of a client: its balances, their sum, and whether the
    /// account is frozen. `None` where the sum overflows.
    pub fn new(client: ClientId, state: &ClientState) -> (r: Option<ClientCsvRecord>)
        ensures
            r is Some <==> state@.total() is Some,
            r matches Some(row) ==> {
                &&& row.client == client
                &&& row.available@ == state@.available
                &&& row.held@ == state@.held
                &&& state@.total() == Some(row.total@)
                &&& row.locked == state@.frozen
            },
    {
        match state.checked_total() {
            Some(total) => Some(
                ClientCsvRecord {
                    client,
                    available: state.available(),
                    held: state.held(),
                    total,
                    locked: state.frozen(),
                },
            ),
            None => None,
        }
    }
}

} // verus!
