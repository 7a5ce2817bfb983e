use txh::amount::Amount;
use txh::client::{ClientState, Error, Transition};
use txh::client::Transition::{Chargeback, Deposit, DisputeDeposit, DisputeWithdrawal, Resolve, Withdrawal};

fn dec(n: i128) -> Amount {
    Amount::new(n, 0).unwrap()
}

#[test]
fn deposit() -> Result<(), Error> {
    let state = ClientState::default()
        .apply(Deposit(dec(42)))?
        .apply(Deposit(dec(58)))?
        .apply(Deposit(dec(1)))?;
    assert_eq!(state.available(), dec(101));

    Ok(())
}

#[test]
fn withdrawal() -> Result<(), Error> {
    let state = ClientState::default().apply(Withdrawal(dec(1)));
    assert_eq!(state, Err(Error::InsufficientFunds));
    let state = ClientState::default()
        .apply(Deposit(dec(100)))?
        .apply(Withdrawal(dec(99)))?;
    assert_eq!(state.available(), dec(1));

    Ok(())
}

#[test]
fn frozen() -> Result<(), Error> {
    let state = ClientState::default().apply(Deposit(dec(42)))?.apply(Chargeback)?;
    assert_eq!(state.available(), dec(42));
    assert_eq!(state.frozen(), true);
    let state = state.apply(Deposit(dec(42)));
    assert_eq!(state, Err(Error::ClientFrozen));

    Ok(())
}

#[test]
fn client_dispute_resolve() -> Result<(), Error> {
    let state = ClientState::default().apply(Withdrawal(dec(1)));
    assert_eq!(state, Err(Error::InsufficientFunds));
    let state = ClientState::default()
        .apply(Deposit(dec(100)))?
        .apply(DisputeDeposit(dec(99)))?;
    assert_eq!(state.available(), dec(1));
    assert_eq!(state.held(), dec(99));
    let state = state.apply(Resolve(dec(99)))?;
    assert_eq!(state.available(), dec(100));
    assert_eq!(state.held(), dec(0));

    Ok(())
}

#[test]
fn default_state_is_unfrozen_and_empty() {
    let state = ClientState::default();
    assert!(!state.frozen());
    assert_eq!(state.available(), dec(0));
    assert_eq!(state.held(), dec(0));
    assert_eq!(state.total(), dec(0));
    assert_eq!(state, ClientState::new(false, dec(0), dec(0)));
}

#[test]
fn total_is_available_plus_held() {
    let state = ClientState::new(false, Amount::new(1250, 2).unwrap(), dec(30));
    assert_eq!(state.total(), Amount::new(4250, 2).unwrap());
    assert_eq!(state.checked_total(), Some(Amount::new(4250, 2).unwrap()));
}

#[test]
fn dispute_of_a_withdrawal_holds_without_touching_available() {
    let state = ClientState::new(false, dec(50), dec(0))
        .apply(DisputeWithdrawal(dec(50)))
        .unwrap();
    assert_eq!(state.available(), dec(50));
    assert_eq!(state.held(), dec(50));
    assert_eq!(state.total(), dec(100));
}

#[test]
fn dispute_of_a_deposit_needs_the_funds() {
    let state = ClientState::new(false, dec(1), dec(0));
    assert_eq!(state.clone().apply(DisputeDeposit(dec(2))), Err(Error::InsufficientFunds));
    assert_eq!(
        state.apply(DisputeDeposit(dec(1))),
        Ok(ClientState::new(false, dec(0), dec(1)))
    );
}

#[test]
fn withdrawal_of_all_funds_is_legal() {
    let state = ClientState::new(false, dec(7), dec(0));
    assert_eq!(state.apply(Withdrawal(dec(7))), Ok(ClientState::new(false, dec(0), dec(0))));
}

#[test]
fn chargeback_freezes_and_keeps_balances() {
    let state = ClientState::new(false, dec(3), dec(4)).apply(Chargeback).unwrap();
    assert_eq!(state, ClientState::new(true, dec(3), dec(4)));
}

#[test]
fn frozen_refuses_every_transition() {
    let all: [Transition; 6] = [
        Deposit(dec(1)),
        Withdrawal(dec(1)),
        DisputeDeposit(dec(1)),
        DisputeWithdrawal(dec(1)),
        Resolve(dec(1)),
        Chargeback,
    ];
    for transition in all {
        let state = ClientState::new(true, dec(10), dec(10));
        assert!(state.accepts(transition));
        assert_eq!(state.apply(transition), Err(Error::ClientFrozen));
    }
}

#[test]
fn resolve_moves_held_back() {
    let state = ClientState::new(false, dec(1), dec(99)).apply(Resolve(dec(99))).unwrap();
    assert_eq!(state, ClientState::new(false, dec(100), dec(0)));
}

#[test]
fn deposits_of_different_scales_add_up_exactly() {
    let state = ClientState::default()
        .apply(Deposit(Amount::new(12345678, 4).unwrap()))
        .unwrap()
        .apply(Deposit(Amount::new(1, 1).unwrap()))
        .unwrap()
        .apply(Deposit(dec(2)))
        .unwrap();
    let available = state.available();
    assert_eq!((available.mantissa(), available.scale()), (12366678, 4));
}

#[test]
fn overflow_is_reported_by_the_checked_transition() {
    let max = Amount::new(79_228_162_514_264_337_593_543_950_335, 0).unwrap();
    let state = ClientState::new(false, max, dec(0));
    assert!(!state.accepts(Deposit(dec(1))));
    assert_eq!(state.clone().checked_apply(Deposit(dec(1))), None);
    assert_eq!(
        state.clone().checked_apply(Withdrawal(dec(1))),
        Some(Ok(ClientState::new(
            false,
            Amount::new(79_228_162_514_264_337_593_543_950_334, 0).unwrap(),
            dec(0)
        )))
    );
    assert_eq!(
        ClientState::new(false, max, max).checked_total(),
        None
    );
    assert_eq!(
        ClientState::new(true, max, dec(0)).checked_apply(Deposit(dec(1))),
        Some(Err(Error::ClientFrozen))
    );
}
