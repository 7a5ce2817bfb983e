//! The engine: replays events against the accounts and the transaction
//! ledger.
//!
//! Its mathematical model is [`Ledger`]; [`Ledger::step`] says what one event
//! does, and [`State::handle`] computes it.
use std::collections::HashMap;
use vstd::prelude::*;
use vstd::std_specs::hash::spec_hash_map_iter;
use vstd::std_specs::iter::IteratorSpec;
use crate::client::{Account, ClientState, Transition};
use crate::event::Event;
use crate::theorems::accounts_for_records_stay;
use crate::transaction::{Deposit, Transaction, Withdrawal};
use crate::{ClientId, TxId};

verus! {

broadcast use vstd::std_specs::hash::group_hash_axioms;

/// Errors that can happen during processing.
#[derive(Clone, Copy, Debug)]
pub enum Error {
    /// A deposit or withdrawal came with the id of a recorded transaction.
    DuplicateTxId(TxId),
}

/// The accounts and the recorded transactions, as two maps.
pub struct Ledger {
    /// Every deposit and withdrawal that was applied, by its id.
    pub transfers: Map<TxId, Transaction>,
    /// The account of every client that has one.
    pub accounts: Map<ClientId, Account>,
}

impl Ledger {
    /// No account and no transaction.
    pub open spec fn empty() -> Ledger {
        Ledger { transfers: Map::empty(), accounts: Map::empty() }
    }

    /// The account of a client, which is empty until funds have moved.
    pub open spec fn account(self, client: ClientId) -> Account {
        if self.accounts.contains_key(client) {
            self.accounts[client]
        } else {
            Account::empty()
        }
    }

    /// The transaction `tx` is on record, it belongs to `client`, and the
    /// client has an account.
    pub open spec fn refers(self, client: ClientId, tx: TxId) -> bool {
        &&& self.transfers.contains_key(tx)
        &&& self.transfers[tx].client() == client
        &&& self.accounts.contains_key(client)
    }

    /// The account and the transition that an event calls for, `None` where
    /// the event is dropped without one.
    ///
    /// A dispute needs a recorded transaction of the same client that is not
    /// under dispute, a resolution one that is, and a chargeback a deposit.
    pub open spec fn pending(self, event: Event) -> Option<(Account, Transition)> {
        match event {
            Event::Deposit { client, amount, .. } => Some(
                (self.account(client), Transition::Deposit(amount)),
            ),
            Event::Withdrawal { client, amount, .. } => Some(
                (self.account(client), Transition::Withdrawal(amount)),
            ),
            Event::Dispute { client, tx } => if self.refers(client, tx)
                && !self.transfers[tx].has_dispute() {
                Some((self.accounts[client], self.transfers[tx].dispute()))
            } else {
                None
            },
            Event::Resolve { client, tx } => if self.refers(client, tx)
                && self.transfers[tx].has_dispute() {
                Some((self.accounts[client], Transition::Resolve(self.transfers[tx].amount())))
            } else {
                None
            },
            Event::Chargeback { client, tx } => if self.refers(client, tx)
                && self.transfers[tx] is Deposit {
                Some((self.accounts[client], Transition::Chargeback))
            } else {
                None
            },
        }
    }

    /// The ledger once the transition that `event` called for has taken the
    /// account to `next`.
    ///
    /// A deposit or withdrawal under a recorded id is refused and changes
    /// nothing; otherwise it is recorded. A dispute sets the dispute flag of
    /// its transaction, a resolution clears it, a chargeback leaves it.
    pub open spec fn commit(self, event: Event, next: Account) -> (Ledger, Result<(), Error>) {
        match event {
            Event::Deposit { client, tx, amount } => self.record(
                client,
                tx,
                Transaction::Deposit(Deposit { client, amount, has_dispute: false }),
                next,
            ),
            Event::Withdrawal { client, tx, amount } => self.record(
                client,
                tx,
                Transaction::Withdrawal(Withdrawal { client, amount, has_dispute: false }),
                next,
            ),
            Event::Dispute { client, tx } => (
                Ledger {
                    transfers: self.transfers.insert(tx, self.transfers[tx].with_dispute(true)),
                    accounts: self.accounts.insert(client, next),
                },
                Ok(()),
            ),
            Event::Resolve { client, tx } => (
                Ledger {
                    transfers: self.transfers.insert(tx, self.transfers[tx].with_dispute(false)),
                    accounts: self.accounts.insert(client, next),
                },
                Ok(()),
            ),
            Event::Chargeback { client, .. } => (
                Ledger { transfers: self.transfers, accounts: self.accounts.insert(client, next) },
                Ok(()),
            ),
        }
    }

    /// Records a new transaction with the account it led to, unless its id is
    /// taken.
    pub open spec fn record(
        self,
        client: ClientId,
        tx: TxId,
        transaction: Transaction,
        next: Account,
    ) -> (Ledger, Result<(), Error>) {
        if self.transfers.contains_key(tx) {
            (self, Err(Error::DuplicateTxId(tx)))
        } else {
            (
                Ledger {
                    transfers: self.transfers.insert(tx, transaction),
                    accounts: self.accounts.insert(client, next),
                },
                Ok(()),
            )
        }
    }

    /// Every recorded transaction belongs to a client that has an account.
    pub open spec fn wf(self) -> bool {
        forall|tx: TxId| #[trigger]
            self.transfers.contains_key(tx) ==> self.accounts.contains_key(
                self.transfers[tx].client(),
            )
    }

    /// What one event does to the ledger, and what the engine answers.
    ///
    /// An event that calls for no transition, or whose transition the account
    /// refuses, changes nothing and is answered `Ok`. `None` where a balance
    /// would overflow.
    pub open spec fn step(self, event: Event) -> Option<(Ledger, Result<(), Error>)> {
        match self.pending(event) {
            None => Some((self, Ok(()))),
            Some((account, transition)) => match account.step(transition) {
                None => None,
                Some(Err(_)) => Some((self, Ok(()))),
                Some(Ok(next)) => Some(self.commit(event, next)),
            },
        }
    }

    /// What a run over `events` does, one event after the other in their
    /// order: the ledger at its end and the answer to the last event that
    /// was replayed. The run ends at the first error.
    pub open spec fn replay(self, events: Seq<Event>) -> Option<(Ledger, Result<(), Error>)>
        decreases events.len(),
    {
        if events.len() == 0 {
            Some((self, Ok(())))
        } else {
            match self.step(events[0]) {
                Some((next, Ok(()))) => next.replay(events.drop_first()),
                stopped => stopped,
            }
        }
    }
}

/// Stores all the information that is required to compute the client state.
///
/// Note that this implementation is not safe to be used in a concurrent
/// environment.
pub struct State {
    transfers: HashMap<TxId, Transaction>,
    client_states: HashMap<ClientId, ClientState>,
}

impl View for State {
    type V = Ledger;

    closed spec fn view(&self) -> Ledger {
        Ledger {
            transfers: self.transfers@,
            accounts: self.client_states@.map_values(|state: ClientState| state@),
        }
    }
}

impl State {
    /// A state without accounts and without transactions.
    pub fn new() -> (r: State)
        ensures
            r@ == Ledger::empty(),
            r@.wf(),
    {
        let r = State { transfers: HashMap::new(), client_states: HashMap::new() };
        assert(r@.accounts =~= Map::empty());
        r
    }

    /// The state of a client, which is the default until funds have moved.
    fn account(&self, client: ClientId) -> (r: ClientState)
        ensures
            r@ == self@.account(client),
    {
        match self.client_states.get(&client) {
            Some(state) => state.clone(),
            None => ClientState::default(),
        }
    }

    /// The transaction `tx` and the state of `client`, where the transaction
    /// is on record for that client.
    fn lookup(&self, client: ClientId, tx: TxId) -> (r: Option<(&Transaction, ClientState)>)
        ensures
            match r {
                Some((transaction, state)) => {
                    &&& self@.refers(client, tx)
                    &&& *transaction == self@.transfers[tx]
                    &&& state@ == self@.accounts[client]
                },
                None => !self@.refers(client, tx),
            },
    {
        match (self.transfers.get(&tx), self.client_states.get(&client)) {
            (Some(transaction), Some(state)) => {
                let owner = match transaction {
                    Transaction::Deposit(d) => d.client,
                    Transaction::Withdrawal(w) => w.client,
                };
                if owner == client {
                    Some((transaction, state.clone()))
                } else {
                    None
                }
            },
            _ => None,
        }
    }

    /// The state and the transition that an event calls for.
    fn pending(&self, event: &Event) -> (r: Option<(ClientState, Transition)>)
        ensures
            self@.pending(*event) == (match r {
                Some((state, transition)) => Some((state@, transition)),
                None => None,
            }),
    {
        match event {
            Event::Deposit { client, amount, .. } => Some(
                (self.account(*client), Transition::Deposit(*amount)),
            ),
            Event::Withdrawal { client, amount, .. } => Some(
                (self.account(*client), Transition::Withdrawal(*amount)),
            ),
            Event::Dispute { client, tx } => match self.lookup(*client, *tx) {
                Some((Transaction::Deposit(d), state)) => if d.has_dispute {
                    None
                } else {
                    Some((state, Transition::DisputeDeposit(d.amount)))
                },
                Some((Transaction::Withdrawal(w), state)) => if w.has_dispute {
                    None
                } else {
                    Some((state, Transition::DisputeWithdrawal(w.amount)))
                },
                None => None,
            },
            Event::Resolve { client, tx } => match self.lookup(*client, *tx) {
                Some((Transaction::Deposit(d), state)) => if d.has_dispute {
                    Some((state, Transition::Resolve(d.amount)))
                } else {
                    None
                },
                Some((Transaction::Withdrawal(w), state)) => if w.has_dispute {
                    Some((state, Transition::Resolve(w.amount)))
                } else {
                    None
                },
                None => None,
            },
            Event::Chargeback { client, tx } => match self.lookup(*client, *tx) {
                // Chargebacks only make sense for deposits.
                Some((Transaction::Deposit(_), state)) => Some((state, Transition::Chargeback)),
                _ => None,
            },
        }
    }

    /// Stores the state of a client.
    fn store(&mut self, client: ClientId, next: ClientState)
        ensures
            final(self)@.transfers == old(self)@.transfers,
            final(self)@.accounts == old(self)@.accounts.insert(client, next@),
    {
        self.client_states.insert(client, next);
        assert(self@.accounts =~= old(self)@.accounts.insert(client, next@));
    }

    /// Sets the dispute flag of a transaction, if it is on record.
    fn mark(&mut self, tx: TxId, has_dispute: bool)
        ensures
            final(self)@.accounts == old(self)@.accounts,
            final(self)@.transfers == (if old(self)@.transfers.contains_key(tx) {
                old(self)@.transfers.insert(tx, old(self)@.transfers[tx].with_dispute(has_dispute))
            } else {
                old(self)@.transfers
            }),
    {
        let marked = match self.transfers.get(&tx) {
            Some(Transaction::Deposit(d)) => Some(
                Transaction::Deposit(Deposit { client: d.client, amount: d.amount, has_dispute }),
            ),
            Some(Transaction::Withdrawal(w)) => Some(
                Transaction::Withdrawal(
                    Withdrawal { client: w.client, amount: w.amount, has_dispute },
                ),
            ),
            None => None,
        };
        match marked {
            Some(transaction) => {
                self.transfers.insert(tx, transaction);
            },
            None => {},
        }
    }

    /// Records a new transaction with the state it led to, unless its id is
    /// taken.
    fn record(&mut self, client: ClientId, tx: TxId, transaction: Transaction, next: ClientState) -> (r:
        Result<(), Error>)
        ensures
            (final(self)@, r) == old(self)@.record(client, tx, transaction, next@),
    {
        if self.transfers.contains_key(&tx) {
            Err(Error::DuplicateTxId(tx))
        } else {
            self.store(client, next);
            self.transfers.insert(tx, transaction);
            Ok(())
        }
    }

    /// Stores what the transition that `event` called for has led to.
    fn commit(&mut self, event: Event, next: ClientState) -> (r: Result<(), Error>)
        requires
            old(self)@.pending(event) is Some,
        ensures
            (final(self)@, r) == old(self)@.commit(event, next@),
    {
        match event {
            Event::Deposit { client, tx, amount } => self.record(
                client,
                tx,
                Transaction::deposit(client, amount),
                next,
            ),
            Event::Withdrawal { client, tx, amount } => self.record(
                client,
                tx,
                Transaction::withdrawal(client, amount),
                next,
            ),
            Event::Dispute { client, tx } => {
                self.store(client, next);
                self.mark(tx, true);
                Ok(())
            },
            Event::Resolve { client, tx } => {
                self.store(client, next);
                self.mark(tx, false);
                Ok(())
            },
            Event::Chargeback { client, .. } => {
                self.store(client, next);
                Ok(())
            },
        }
    }

    /// Whether no balance overflows under the event.
    pub fn accepts(&self, event: &Event) -> (r: bool)
        ensures
            r == self@.step(*event) is Some,
    {
        match self.pending(event) {
            Some((state, transition)) => state.accepts(transition),
            None => true,
        }
    }

    /// Replays one event.
    ///
    /// An event that makes no sense for the accounts as they are (funds that
    /// are not there, a frozen account, a transaction that is unknown, of
    /// another client or in the wrong dispute state) is ignored and answered
    /// `Ok`. A deposit or withdrawal that reuses a transaction id is answered
    /// with an error, and changes nothing.
    pub fn handle(&mut self, event: Event) -> (r: Result<(), Error>)
        requires
            old(self)@.step(event) is Some,
        ensures
            old(self)@.step(event) == Some((final(self)@, r)),
            old(self)@.wf() ==> final(self)@.wf(),
    {
        proof {
            if self@.wf() {
                accounts_for_records_stay(self@, event);
            }
        }
        match self.pending(&event) {
            Some((state, transition)) => match state.apply(transition) {
                Ok(next) => self.commit(event, next),
                Err(_) => Ok(()),
            },
            None => Ok(()),
        }
    }

    /// Replays the events in their order, up to the first error.
    ///
    /// `None` where a balance would overflow under one of them: the events
    /// before that one have been replayed, and nothing after them.
    pub fn replay(&mut self, events: &Vec<Event>) -> (r: Option<Result<(), Error>>)
        ensures
            match r {
                Some(answer) => old(self)@.replay(events@) == Some((final(self)@, answer)),
                None => old(self)@.replay(events@) is None,
            },
            old(self)@.wf() ==> final(self)@.wf(),
    {
        let mut done: usize = 0;
        assert(events@.skip(0) =~= events@);
        while done < events.len()
            invariant
                done <= events.len(),
                old(self)@.replay(events@) == self@.replay(events@.skip(done as int)),
                old(self)@.wf() ==> self@.wf(),
            decreases events.len() - done,
        {
            assert(events@.skip(done as int)[0] == events@[done as int]);
            assert(events@.skip(done as int).drop_first() =~= events@.skip(done + 1));
            match self.checked_handle(events[done]) {
                Some(Ok(())) => {},
                stopped => {
                    return stopped;
                },
            }
            done += 1;
        }
        Some(Ok(()))
    }

    /// The clients that have an account, each once and with its state, in no
    /// particular order.
    pub fn client_states(&self) -> (rows: Vec<(ClientId, ClientState)>)
        ensures
            rows@.len() == self@.accounts.len(),
            forall|i: int|
                0 <= i < rows@.len() ==> self@.accounts.contains_pair(
                    (#[trigger] rows@[i]).0,
                    rows@[i].1@,
                ),
            forall|i: int, j: int|
                0 <= i < j < rows@.len() ==> (#[trigger] rows@[i]).0 != (#[trigger] rows@[j]).0,
            forall|client: ClientId| #[trigger]
                self@.accounts.contains_key(client) ==> exists|i: int|
                    0 <= i < rows@.len() && (#[trigger] rows@[i]).0 == client,
    {
        let mut rows: Vec<(ClientId, ClientState)> = Vec::new();
        for pair in it: self.client_states.iter()
            invariant
                it.seq() == spec_hash_map_iter(&self.client_states).remaining(),
                it.seq().no_duplicates(),
                rows@.len() == it.index(),
                forall|i: int|
                    0 <= i < rows@.len() ==> (#[trigger] rows@[i]).0 == *it.seq()[i].0
                        && rows@[i].1@ == (*it.seq()[i].1)@,
        {
            let (client, state) = pair;
            rows.push((*client, state.clone()));
        }
        proof {
            let seen = spec_hash_map_iter(&self.client_states).remaining();
            assert(self@.accounts.dom() =~= self.client_states@.dom());
            assert forall|i: int, j: int| 0 <= i < j < rows@.len() implies (#[trigger] rows@[i]).0 != (
            #[trigger] rows@[j]).0 by {
                if rows@[i].0 == rows@[j].0 {
                    assert(self.client_states@.contains_key(*seen[i].0));
                    assert(self.client_states@.contains_key(*seen[j].0));
                    assert(seen[i] == seen[j]);
                }
            }
            assert forall|client: ClientId| #[trigger]
                self@.accounts.contains_key(client) implies exists|i: int|
                0 <= i < rows@.len() && (#[trigger] rows@[i]).0 == client by {
                let pair = (&client, &self.client_states@[client]);
                assert(seen.contains(pair));
                let i = choose|i: int| 0 <= i < seen.len() && seen[i] == pair;
                assert(rows@[i].0 == client);
            }
        }
        rows
    }

    /// Replays one event where no balance overflows under it.
    ///
    /// `None`, and nothing changes, where one would.
    pub fn checked_handle(&mut self, event: Event) -> (r: Option<Result<(), Error>>)
        ensures
            match r {
                Some(answer) => old(self)@.step(event) == Some((final(self)@, answer)),
                None => old(self)@.step(event) is None && final(self)@ == old(self)@,
            },
            old(self)@.wf() ==> final(self)@.wf(),
    {
        if self.accepts(&event) {
            Some(self.handle(event))
        } else {
            None
        }
    }
}

} // verus!
