//! What holds of every account, of every event and of every run of the
//! engine.
//!
//! The theorems are stated over [`Account::step`], which is what
//! [`ClientState::apply`](crate::client::ClientState::apply) computes, over
//! [`Ledger::step`], which is what
//! [`State::handle`](crate::state::State::handle) computes, and over
//! [`Ledger::replay`], which is what
//! [`State::replay`](crate::state::State::replay) computes.
//!
//! Amounts are decimals of 96 bits and at most 28 places. A sum that needs
//! more than that is rounded to fewer places or overflows; what a theorem
//! says of the value of a balance, it says of the sums that need no
//! rounding.
use vstd::prelude::*;
use crate::amount::{
    lemma_minus_exact, lemma_order_is_by_units, lemma_plus_exact, lemma_pow10_adds,
    lemma_pow10_positive, lemma_units_at_scale, pow10, Amount, Fixed, MANTISSA_LIMIT, MAX_SCALE,
};
use crate::client::{Account, Transition};
use crate::client::Error as Refusal;
use crate::event::Event;
use crate::state::{Error, Ledger};
use crate::{ClientId, TxId};

verus! {

/// A frozen account refuses every transition.
pub proof fn frozen_account_refuses(account: Account, transition: Transition)
    requires
        account.frozen,
    ensures
        account.step(transition) == Some(Err::<Account, Refusal>(Refusal::ClientFrozen)),
{
}

/// What each transition does to the balances of an account that is not
/// frozen: a deposit adds to the available funds; a withdrawal takes from
/// them, unless it exceeds them; a dispute of a deposit moves its amount
/// from the available to the held funds, unless it exceeds the available
/// funds; a dispute of a withdrawal adds to the held funds; a resolution
/// moves its amount from the held to the available funds; a chargeback
/// freezes the account. Nothing else changes.
///
/// It is stated of the transitions that are computed without rounding.
pub proof fn transition_moves_funds(account: Account, transition: Transition)
    requires
        account.wf(),
        transition.amount().wf(),
        !account.frozen,
        account.steps_exactly(transition),
    ensures
        ({
            let amount = transition.amount().units();
            let available = account.available.units();
            let held = account.held.units();
            let short = (transition is Withdrawal || transition is DisputeDeposit) && available
                < amount;
            if short {
                account.step(transition) == Some(Err::<Account, Refusal>(Refusal::InsufficientFunds))
            } else {
                account.step(transition) matches Some(Ok(next)) && {
                    &&& next.wf()
                    &&& next.frozen == transition is Chargeback
                    &&& next.available.units() == match transition {
                        Transition::Deposit(_) => available + amount,
                        Transition::Withdrawal(_) => available - amount,
                        Transition::DisputeDeposit(_) => available - amount,
                        Transition::DisputeWithdrawal(_) => available,
                        Transition::Resolve(_) => available + amount,
                        Transition::Chargeback => available,
                    }
                    &&& next.held.units() == match transition {
                        Transition::Deposit(_) => held,
                        Transition::Withdrawal(_) => held,
                        Transition::DisputeDeposit(_) => held + amount,
                        Transition::DisputeWithdrawal(_) => held + amount,
                        Transition::Resolve(_) => held - amount,
                        Transition::Chargeback => held,
                    }
                }
            }
        }),
{
    let amount = transition.amount();
    lemma_order_is_by_units(account.available, amount);
    match transition {
        Transition::Deposit(_) => {
            lemma_plus_exact(account.available, amount);
        },
        Transition::Withdrawal(_) => {
            lemma_minus_exact(account.available, amount);
        },
        Transition::DisputeDeposit(_) => {
            lemma_minus_exact(account.available, amount);
            lemma_plus_exact(account.held, amount);
        },
        Transition::DisputeWithdrawal(_) => {
            lemma_plus_exact(account.held, amount);
        },
        Transition::Resolve(_) => {
            lemma_plus_exact(account.available, amount);
            lemma_minus_exact(account.held, amount);
        },
        Transition::Chargeback => {},
    }
}

/// No transition of a non-negative amount makes the available funds
/// negative.
///
/// It is stated of the transitions that are computed without rounding.
pub proof fn available_funds_stay_non_negative(account: Account, transition: Transition)
    requires
        account.wf(),
        transition.amount().wf(),
        account.steps_exactly(transition),
        0 <= account.available.units(),
        0 <= transition.amount().units(),
    ensures
        account.step(transition) matches Some(Ok(next)) ==> 0 <= next.available.units(),
{
    if !account.frozen {
        transition_moves_funds(account, transition);
    }
}

/// A withdrawal of more than the available funds changes nothing.
pub proof fn excess_withdrawal_changes_nothing(
    ledger: Ledger,
    client: ClientId,
    tx: TxId,
    amount: Amount,
)
    requires
        ledger.account(client).available.wf(),
        amount@.wf(),
        ledger.account(client).available.units() < amount@.units(),
    ensures
        ledger.step(Event::Withdrawal { client, tx, amount }) == Some((ledger, Ok::<(), Error>(()))),
{
    lemma_order_is_by_units(ledger.account(client).available, amount@);
}

/// A dispute of a transaction that is under dispute already changes nothing.
pub proof fn second_dispute_changes_nothing(ledger: Ledger, client: ClientId, tx: TxId)
    requires
        ledger.transfers.contains_key(tx),
        ledger.transfers[tx].has_dispute(),
    ensures
        ledger.step(Event::Dispute { client, tx }) == Some((ledger, Ok::<(), Error>(()))),
{
}

/// A resolution of a transaction that is not under dispute, or that is not
/// on record, changes nothing.
pub proof fn idle_resolve_changes_nothing(ledger: Ledger, client: ClientId, tx: TxId)
    requires
        !ledger.transfers.contains_key(tx) || !ledger.transfers[tx].has_dispute(),
    ensures
        ledger.step(Event::Resolve { client, tx }) == Some((ledger, Ok::<(), Error>(()))),
{
}

/// A chargeback of a withdrawal changes nothing.
pub proof fn chargeback_of_withdrawal_changes_nothing(ledger: Ledger, client: ClientId, tx: TxId)
    requires
        ledger.transfers.contains_key(tx),
        ledger.transfers[tx] is Withdrawal,
    ensures
        ledger.step(Event::Chargeback { client, tx }) == Some((ledger, Ok::<(), Error>(()))),
{
}

/// A dispute, resolution or chargeback of a transaction that is not on
/// record changes nothing.
pub proof fn unknown_reference_changes_nothing(ledger: Ledger, event: Event)
    requires
        !event.moves_funds(),
        !ledger.transfers.contains_key(event.tx()),
    ensures
        ledger.step(event) == Some((ledger, Ok::<(), Error>(()))),
{
}

/// A dispute, resolution or chargeback of a transaction of another client
/// changes nothing.
pub proof fn foreign_reference_changes_nothing(ledger: Ledger, event: Event)
    requires
        !event.moves_funds(),
        ledger.transfers.contains_key(event.tx()),
        ledger.transfers[event.tx()].client() != event.client(),
    ensures
        ledger.step(event) == Some((ledger, Ok::<(), Error>(()))),
{
}

/// Whatever names the client of a frozen account changes nothing.
pub proof fn frozen_account_ignores_events(ledger: Ledger, event: Event)
    requires
        ledger.account(event.client()).frozen,
    ensures
        ledger.step(event) == Some((ledger, Ok::<(), Error>(()))),
{
}

/// A chargeback of a deposit freezes the account of its client, whether the
/// deposit is under dispute or not, and leaves the balances and the recorded
/// transactions as they are.
pub proof fn chargeback_of_deposit_freezes(ledger: Ledger, client: ClientId, tx: TxId)
    requires
        ledger.refers(client, tx),
        ledger.transfers[tx] is Deposit,
    ensures
        ledger.step(Event::Chargeback { client, tx }) matches Some((after, Ok(()))) && {
            &&& after.transfers == ledger.transfers
            &&& after.accounts.dom() == ledger.accounts.dom()
            &&& after.accounts[client].frozen
            &&& after.accounts[client].available == ledger.accounts[client].available
            &&& after.accounts[client].held == ledger.accounts[client].held
            &&& forall|other: ClientId|
                other != client && ledger.accounts.contains_key(other)
                    ==> #[trigger] after.accounts[other] == ledger.accounts[other]
        },
{
    let after = ledger.step(Event::Chargeback { client, tx }).unwrap().0;
    assert(after.accounts.dom() =~= ledger.accounts.dom());
}

/// A deposit or withdrawal that the account would take, under the id of a
/// recorded transaction, is answered with an error and changes nothing.
pub proof fn duplicate_id_is_refused(ledger: Ledger, event: Event)
    requires
        event.moves_funds(),
        ledger.transfers.contains_key(event.tx()),
        ledger.pending(event) matches Some((account, transition)) && account.step(transition)
            matches Some(Ok(_)),
    ensures
        ledger.step(event) == Some((ledger, Err::<(), Error>(Error::DuplicateTxId(event.tx())))),
{
}

/// The engine answers with an error only to a deposit or withdrawal under
/// the id of a recorded transaction, and then changes nothing. Whatever else
/// it refuses, it answers `Ok`.
pub proof fn error_means_duplicate_id(ledger: Ledger, event: Event)
    requires
        ledger.step(event) matches Some((_, Err(_))),
    ensures
        event.moves_funds(),
        ledger.transfers.contains_key(event.tx()),
        ledger.step(event) == Some((ledger, Err::<(), Error>(Error::DuplicateTxId(event.tx())))),
{
}

/// A dispute of a deposit moves the amount of the deposit, as it was
/// recorded, from the available to the held funds, and nothing else.
///
/// It is stated of the disputes that are computed without rounding.
pub proof fn dispute_of_deposit_holds_its_amount(ledger: Ledger, client: ClientId, tx: TxId)
    requires
        ledger.refers(client, tx),
        ledger.transfers[tx] is Deposit,
        !ledger.transfers[tx].has_dispute(),
        ledger.transfers[tx].amount()@.wf(),
        ledger.accounts[client].wf(),
        !ledger.accounts[client].frozen,
        ledger.transfers[tx].amount()@.units() <= ledger.accounts[client].available.units(),
        ledger.accounts[client].steps_exactly(ledger.transfers[tx].dispute()),
    ensures
        ledger.step(Event::Dispute { client, tx }) matches Some((after, Ok(()))) && {
            let before = ledger.accounts[client];
            let amount = ledger.transfers[tx].amount()@;
            &&& after.transfers == ledger.transfers.insert(
                tx,
                ledger.transfers[tx].with_dispute(true),
            )
            &&& after.accounts.dom() == ledger.accounts.dom()
            &&& after.accounts[client].wf()
            &&& !after.accounts[client].frozen
            &&& after.accounts[client].available.units() == before.available.units()
                - amount.units()
            &&& after.accounts[client].held.units() == before.held.units() + amount.units()
            &&& forall|other: ClientId|
                other != client && ledger.accounts.contains_key(other)
                    ==> #[trigger] after.accounts[other] == ledger.accounts[other]
        },
{
    let before = ledger.accounts[client];
    let amount = ledger.transfers[tx].amount()@;
    lemma_order_is_by_units(before.available, amount);
    lemma_minus_exact(before.available, amount);
    lemma_plus_exact(before.held, amount);
    let after = ledger.step(Event::Dispute { client, tx }).unwrap().0;
    assert(after.accounts.dom() =~= ledger.accounts.dom());
}

/// A dispute of a withdrawal adds the amount of the withdrawal, as it was
/// recorded, to the held funds and leaves the available funds as they are.
///
/// It is stated of the disputes that are computed without rounding.
pub proof fn dispute_of_withdrawal_holds_its_amount(ledger: Ledger, client: ClientId, tx: TxId)
    requires
        ledger.refers(client, tx),
        ledger.transfers[tx] is Withdrawal,
        !ledger.transfers[tx].has_dispute(),
        ledger.transfers[tx].amount()@.wf(),
        ledger.accounts[client].wf(),
        !ledger.accounts[client].frozen,
        ledger.accounts[client].steps_exactly(ledger.transfers[tx].dispute()),
    ensures
        ledger.step(Event::Dispute { client, tx }) matches Some((after, Ok(()))) && {
            let before = ledger.accounts[client];
            let amount = ledger.transfers[tx].amount()@;
            &&& after.transfers == ledger.transfers.insert(
                tx,
                ledger.transfers[tx].with_dispute(true),
            )
            &&& after.accounts.dom() == ledger.accounts.dom()
            &&& after.accounts[client].wf()
            &&& !after.accounts[client].frozen
            &&& after.accounts[client].available == before.available
            &&& after.accounts[client].held.units() == before.held.units() + amount.units()
            &&& forall|other: ClientId|
                other != client && ledger.accounts.contains_key(other)
                    ==> #[trigger] after.accounts[other] == ledger.accounts[other]
        },
{
    let before = ledger.accounts[client];
    let amount = ledger.transfers[tx].amount()@;
    lemma_plus_exact(before.held, amount);
    let after = ledger.step(Event::Dispute { client, tx }).unwrap().0;
    assert(after.accounts.dom() =~= ledger.accounts.dom());
}

/// A resolution of a transaction under dispute moves the amount of the
/// transaction, as it was recorded, from the held to the available funds and
/// clears the dispute, and nothing else.
///
/// It is stated of the resolutions that are computed without rounding.
pub proof fn resolve_releases_held_amount(ledger: Ledger, client: ClientId, tx: TxId)
    requires
        ledger.refers(client, tx),
        ledger.transfers[tx].has_dispute(),
        ledger.transfers[tx].amount()@.wf(),
        ledger.accounts[client].wf(),
        !ledger.accounts[client].frozen,
        ledger.accounts[client].steps_exactly(Transition::Resolve(ledger.transfers[tx].amount())),
    ensures
        ledger.step(Event::Resolve { client, tx }) matches Some((after, Ok(()))) && {
            let before = ledger.accounts[client];
            let amount = ledger.transfers[tx].amount()@;
            &&& after.transfers == ledger.transfers.insert(
                tx,
                ledger.transfers[tx].with_dispute(false),
            )
            &&& after.accounts.dom() == ledger.accounts.dom()
            &&& after.accounts[client].wf()
            &&& !after.accounts[client].frozen
            &&& after.accounts[client].available.units() == before.available.units()
                + amount.units()
            &&& after.accounts[client].held.units() == before.held.units() - amount.units()
            &&& forall|other: ClientId|
                other != client && ledger.accounts.contains_key(other)
                    ==> #[trigger] after.accounts[other] == ledger.accounts[other]
        },
{
    let before = ledger.accounts[client];
    let amount = ledger.transfers[tx].amount()@;
    lemma_plus_exact(before.available, amount);
    lemma_minus_exact(before.held, amount);
    let after = ledger.step(Event::Resolve { client, tx }).unwrap().0;
    assert(after.accounts.dom() =~= ledger.accounts.dom());
}

/// A dispute of a deposit followed by its resolution restores the available
/// and the held funds, and leaves the recorded transactions as they were.
///
/// It is stated of the disputes and resolutions that are computed without
/// rounding.
pub proof fn resolve_undoes_dispute(ledger: Ledger, client: ClientId, tx: TxId)
    requires
        ledger.refers(client, tx),
        ledger.transfers[tx] is Deposit,
        !ledger.transfers[tx].has_dispute(),
        ledger.transfers[tx].amount()@.wf(),
        ledger.accounts[client].wf(),
        !ledger.accounts[client].frozen,
        ledger.transfers[tx].amount()@.units() <= ledger.accounts[client].available.units(),
        ledger.accounts[client].steps_exactly(ledger.transfers[tx].dispute()),
        ledger.accounts[client].step(ledger.transfers[tx].dispute()) matches Some(Ok(disputed))
            ==> disputed.steps_exactly(Transition::Resolve(ledger.transfers[tx].amount())),
    ensures
        ledger.step(Event::Dispute { client, tx }) matches Some((disputed, Ok(())))
            && disputed.step(Event::Resolve { client, tx }) matches Some((after, Ok(()))) && {
            &&& after.transfers == ledger.transfers
            &&& after.accounts.dom() == ledger.accounts.dom()
            &&& !after.accounts[client].frozen
            &&& after.accounts[client].available.units()
                == ledger.accounts[client].available.units()
            &&& after.accounts[client].held.units() == ledger.accounts[client].held.units()
            &&& forall|other: ClientId|
                other != client && ledger.accounts.contains_key(other)
                    ==> #[trigger] after.accounts[other] == ledger.accounts[other]
        },
{
    dispute_of_deposit_holds_its_amount(ledger, client, tx);
    let disputed = ledger.step(Event::Dispute { client, tx }).unwrap().0;
    resolve_releases_held_amount(disputed, client, tx);
    let after = disputed.step(Event::Resolve { client, tx }).unwrap().0;
    assert(after.transfers =~= ledger.transfers);
}

/// The sum of the amounts, in units of `10^-28`.
pub open spec fn sum_units(amounts: Seq<Amount>) -> int
    decreases amounts.len(),
{
    if amounts.len() == 0 {
        0
    } else {
        amounts[0]@.units() + sum_units(amounts.drop_first())
    }
}

/// The amounts are valid, and adding them to `start` one after the other
/// never rounds.
pub open spec fn adds_up(start: Fixed, amounts: Seq<Amount>) -> bool
    decreases amounts.len(),
{
    amounts.len() > 0 ==> {
        &&& amounts[0]@.wf()
        &&& start.adds_exactly(amounts[0]@)
        &&& adds_up(start.plus(amounts[0]@).unwrap(), amounts.drop_first())
    }
}

/// The number of units fits in 96 bits when written with `scale` decimal
/// places.
pub open spec fn fits_at(units: int, scale: nat) -> bool {
    -MANTISSA_LIMIT * pow10((MAX_SCALE - scale) as nat) < units < MANTISSA_LIMIT * pow10(
        (MAX_SCALE - scale) as nat,
    )
}

/// Amounts of at most `scale` decimal places add up without rounding where
/// every sum on the way fits in 96 bits at that scale.
pub proof fn sums_within_limit_add_up(start: Fixed, amounts: Seq<Amount>, scale: nat)
    requires
        start.wf(),
        start.scale <= scale <= MAX_SCALE,
        forall|i: int|
            0 <= i < amounts.len() ==> (#[trigger] amounts[i])@.wf() && amounts[i]@.scale <= scale,
        forall|k: int|
            0 <= k <= amounts.len() ==> fits_at(
                start.units() + sum_units(#[trigger] amounts.take(k)),
                scale,
            ),
    ensures
        adds_up(start, amounts),
    decreases amounts.len(),
{
    if amounts.len() > 0 {
        let first = amounts[0]@;
        let rest = amounts.drop_first();
        let common = start.common_scale(first);
        let total = start.units() + first.units();
        assert(total == start.units() + sum_units(amounts.take(1))) by {
            assert(amounts.take(1).drop_first() =~= Seq::<Amount>::empty());
            assert(sum_units(amounts.take(1).drop_first()) == 0);
            assert(amounts.take(1)[0] == amounts[0]);
        }
        assert(start.adds_exactly(first)) by {
            let mantissa = start.mantissa_at(common) + first.mantissa_at(common);
            let low = pow10((MAX_SCALE - scale) as nat);
            let high = pow10((MAX_SCALE - common) as nat);
            let between = pow10((scale - common) as nat);
            lemma_units_at_scale(start, common);
            lemma_units_at_scale(first, common);
            lemma_pow10_adds((scale - common) as nat, (MAX_SCALE - scale) as nat);
            lemma_pow10_positive((MAX_SCALE - scale) as nat);
            lemma_pow10_positive((scale - common) as nat);
            assert(mantissa * high == total) by (nonlinear_arith)
                requires
                    start.mantissa_at(common) * high == start.units(),
                    first.mantissa_at(common) * high == first.units(),
                    mantissa == start.mantissa_at(common) + first.mantissa_at(common),
                    total == start.units() + first.units(),
            ;
            assert(-MANTISSA_LIMIT < mantissa < MANTISSA_LIMIT) by (nonlinear_arith)
                requires
                    mantissa * high == total,
                    high == between * low,
                    between >= 1,
                    low >= 1,
                    -MANTISSA_LIMIT * low < total < MANTISSA_LIMIT * low,
            ;
        }
        lemma_plus_exact(start, first);
        let next = start.plus(first).unwrap();
        assert forall|k: int| 0 <= k <= rest.len() implies fits_at(
            next.units() + sum_units(#[trigger] rest.take(k)),
            scale,
        ) by {
            assert(amounts.take(k + 1).drop_first() =~= rest.take(k));
            assert(amounts.take(k + 1)[0] == amounts[0]);
        }
        assert forall|i: int| 0 <= i < rest.len() implies (#[trigger] rest[i])@.wf() && rest[i]@.scale
            <= scale by {
            assert(rest[i] == amounts[i + 1]);
        }
        sums_within_limit_add_up(next, rest, scale);
    }
}

/// The deposits of `amounts` by `client`, in their order, under the ids
/// `txs`.
pub open spec fn deposits(client: ClientId, txs: Seq<TxId>, amounts: Seq<Amount>) -> Seq<Event> {
    Seq::new(amounts.len(), |i: int| Event::Deposit { client, tx: txs[i], amount: amounts[i] })
}

/// After a run of deposits under new ids into an account that is not
/// frozen, the available funds have grown by the sum of the deposited
/// amounts, exactly; the held funds and the other accounts are as they were.
///
/// It is stated of the deposits that are added without rounding.
pub proof fn deposits_add_up(ledger: Ledger, client: ClientId, txs: Seq<TxId>, amounts: Seq<Amount>)
    requires
        txs.len() == amounts.len(),
        txs.no_duplicates(),
        forall|i: int| 0 <= i < txs.len() ==> !ledger.transfers.contains_key(#[trigger] txs[i]),
        !ledger.account(client).frozen,
        ledger.account(client).available.wf(),
        adds_up(ledger.account(client).available, amounts),
    ensures
        ledger.replay(deposits(client, txs, amounts)) matches Some((end, Ok(()))) && {
            &&& end.account(client).available.wf()
            &&& end.account(client).available.units() == ledger.account(client).available.units()
                + sum_units(amounts)
            &&& end.account(client).held == ledger.account(client).held
            &&& !end.account(client).frozen
            &&& forall|other: ClientId|
                other != client ==> #[trigger] end.account(other) == ledger.account(other)
        },
    decreases amounts.len(),
{
    let events = deposits(client, txs, amounts);
    if amounts.len() > 0 {
        let account = ledger.account(client);
        lemma_plus_exact(account.available, amounts[0]@);
        assert(events[0] == Event::Deposit { client, tx: txs[0], amount: amounts[0] });
        let next = ledger.step(events[0]).unwrap().0;
        assert(events.drop_first() =~= deposits(client, txs.drop_first(), amounts.drop_first()));
        assert forall|i: int| 0 <= i < txs.drop_first().len() implies !next.transfers.contains_key(
            #[trigger] txs.drop_first()[i],
        ) by {
            assert(txs.drop_first()[i] == txs[i + 1]);
        }
        deposits_add_up(next, client, txs.drop_first(), amounts.drop_first());
    }
}

/// An event changes no account but that of the client it names, and no
/// recorded transaction but the one it names.
pub proof fn event_touches_its_own(ledger: Ledger, event: Event)
    requires
        ledger.step(event) is Some,
    ensures
        ledger.step(event) matches Some((after, _)) && {
            &&& forall|client: ClientId|
                client != event.client() ==> #[trigger] after.accounts.contains_key(client)
                    == ledger.accounts.contains_key(client)
            &&& forall|client: ClientId|
                client != event.client() ==> #[trigger] after.account(client) == ledger.account(
                    client,
                )
            &&& forall|tx: TxId|
                tx != event.tx() ==> #[trigger] after.transfers.contains_key(tx)
                    == ledger.transfers.contains_key(tx)
            &&& forall|tx: TxId|
                tx != event.tx() && ledger.transfers.contains_key(tx)
                    ==> #[trigger] after.transfers[tx] == ledger.transfers[tx]
        },
{
}

/// No event changes a frozen account, whichever client it names.
pub proof fn frozen_account_stays(ledger: Ledger, client: ClientId, event: Event)
    requires
        ledger.accounts.contains_key(client),
        ledger.accounts[client].frozen,
        ledger.step(event) is Some,
    ensures
        ledger.step(event) matches Some((after, _)) && after.accounts.contains_key(client)
            && after.accounts[client] == ledger.accounts[client],
{
}

/// From the moment an account is frozen, it is the same at the end of every
/// run.
pub proof fn frozen_account_is_final(ledger: Ledger, client: ClientId, events: Seq<Event>)
    requires
        ledger.accounts.contains_key(client),
        ledger.accounts[client].frozen,
        ledger.replay(events) is Some,
    ensures
        ledger.replay(events) matches Some((end, _)) && end.accounts.contains_key(client)
            && end.accounts[client] == ledger.accounts[client],
    decreases events.len(),
{
    if events.len() > 0 {
        frozen_account_stays(ledger, client, events[0]);
        match ledger.step(events[0]) {
            Some((next, Ok(()))) => frozen_account_is_final(next, client, events.drop_first()),
            _ => {},
        }
    }
}

/// An event opens an account only for the client that it names, only where
/// it is a deposit or withdrawal that the engine applies, and it then
/// records the transaction.
pub proof fn account_opens_on_funds(ledger: Ledger, client: ClientId, event: Event)
    requires
        !ledger.accounts.contains_key(client),
        ledger.step(event) matches Some((after, _)) && after.accounts.contains_key(client),
    ensures
        event.moves_funds(),
        event.client() == client,
        ledger.step(event) matches Some((after, Ok(()))) && after.transfers.contains_key(event.tx())
            && !ledger.transfers.contains_key(event.tx()),
{
}

/// A client for whom the run holds no deposit and no withdrawal has no
/// account at its end, unless it had one before.
pub proof fn no_account_without_funds(ledger: Ledger, client: ClientId, events: Seq<Event>)
    requires
        !ledger.accounts.contains_key(client),
        forall|i: int|
            0 <= i < events.len() ==> !((#[trigger] events[i]).moves_funds() && events[i].client()
                == client),
        ledger.replay(events) is Some,
    ensures
        ledger.replay(events) matches Some((end, _)) && !end.accounts.contains_key(client),
    decreases events.len(),
{
    if events.len() > 0 {
        let first = events[0];
        if ledger.step(first) matches Some((next, _)) && next.accounts.contains_key(client) {
            account_opens_on_funds(ledger, client, first);
        }
        match ledger.step(first) {
            Some((next, Ok(()))) => {
                assert forall|i: int| 0 <= i < events.drop_first().len() implies !((
                #[trigger] events.drop_first()[i]).moves_funds()
                    && events.drop_first()[i].client() == client) by {
                    assert(events.drop_first()[i] == events[i + 1]);
                }
                no_account_without_funds(next, client, events.drop_first());
            },
            _ => {},
        }
    }
}

/// A run of disputes, resolutions and chargebacks of transactions that are
/// not on record changes nothing.
pub proof fn unknown_references_change_nothing(ledger: Ledger, events: Seq<Event>)
    requires
        forall|i: int|
            0 <= i < events.len() ==> !(#[trigger] events[i]).moves_funds()
                && !ledger.transfers.contains_key(events[i].tx()),
    ensures
        ledger.replay(events) == Some((ledger, Ok::<(), Error>(()))),
    decreases events.len(),
{
    if events.len() > 0 {
        unknown_reference_changes_nothing(ledger, events[0]);
        assert forall|i: int| 0 <= i < events.drop_first().len() implies !(
        #[trigger] events.drop_first()[i]).moves_funds() && !ledger.transfers.contains_key(
            events.drop_first()[i].tx(),
        ) by {
            assert(events.drop_first()[i] == events[i + 1]);
        }
        unknown_references_change_nothing(ledger, events.drop_first());
    }
}

/// A recorded transaction stays on record, with its kind, its client and its
/// amount: an event changes at most its dispute flag.
pub proof fn recorded_transaction_stays(ledger: Ledger, tx: TxId, event: Event)
    requires
        ledger.transfers.contains_key(tx),
        ledger.step(event) is Some,
    ensures
        ledger.step(event) matches Some((after, _)) && {
            &&& after.transfers.contains_key(tx)
            &&& after.transfers[tx] is Deposit == ledger.transfers[tx] is Deposit
            &&& after.transfers[tx].client() == ledger.transfers[tx].client()
            &&& after.transfers[tx].amount() == ledger.transfers[tx].amount()
            &&& tx != event.tx() ==> after.transfers[tx] == ledger.transfers[tx]
        },
{
}

/// Where every recorded transaction belongs to a client with an account,
/// that is so after every event too.
pub proof fn accounts_for_records_stay(ledger: Ledger, event: Event)
    requires
        ledger.wf(),
        ledger.step(event) is Some,
    ensures
        ledger.step(event) matches Some((after, _)) && after.wf(),
{
    let after = ledger.step(event).unwrap().0;
    assert forall|tx: TxId| #[trigger] after.transfers.contains_key(tx) implies after.accounts.contains_key(
        after.transfers[tx].client(),
    ) by {
        if ledger.transfers.contains_key(tx) {
            recorded_transaction_stays(ledger, tx, event);
            assert(ledger.accounts.contains_key(ledger.transfers[tx].client()));
        }
    }
}

/// A run is the run over its first part followed, where that ended without an
/// error, by the run over the rest.
pub proof fn replay_in_two_parts(ledger: Ledger, first: Seq<Event>, rest: Seq<Event>)
    ensures
        ledger.replay(first + rest) == (match ledger.replay(first) {
            Some((middle, Ok(()))) => middle.replay(rest),
            stopped => stopped,
        }),
    decreases first.len(),
{
    if first.len() == 0 {
        assert(first + rest =~= rest);
    } else {
        assert((first + rest)[0] == first[0]);
        assert((first + rest).drop_first() =~= first.drop_first() + rest);
        match ledger.step(first[0]) {
            Some((next, Ok(()))) => replay_in_two_parts(next, first.drop_first(), rest),
            _ => {},
        }
    }
}

/// A deposit or withdrawal that the account would take, under the id of a
/// recorded transaction, ends the run with an error: the ledger is as it was
/// before that event, and what follows it is not replayed.
pub proof fn duplicate_id_ends_the_run(
    ledger: Ledger,
    before: Seq<Event>,
    event: Event,
    after: Seq<Event>,
)
    requires
        ledger.replay(before) matches Some((middle, Ok(()))) && {
            &&& event.moves_funds()
            &&& middle.transfers.contains_key(event.tx())
            &&& middle.pending(event) matches Some((account, transition)) && account.step(
                transition,
            ) matches Some(Ok(_))
        },
    ensures
        ledger.replay(before + seq![event] + after) == Some(
            (ledger.replay(before).unwrap().0, Err::<(), Error>(Error::DuplicateTxId(event.tx()))),
        ),
{
    let middle = ledger.replay(before).unwrap().0;
    duplicate_id_is_refused(middle, event);
    assert(before + seq![event] + after =~= before + (seq![event] + after));
    replay_in_two_parts(ledger, before, seq![event] + after);
    assert((seq![event] + after)[0] == event);
}

} // verus!
