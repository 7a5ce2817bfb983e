use txh::amount::Amount;
use txh::transaction::Transaction;

#[test]
fn new_transactions_are_not_under_dispute() {
    let amount = Amount::new(1250, 2).unwrap();
    match Transaction::deposit(3, amount) {
        Transaction::Deposit(deposit) => {
            assert_eq!(deposit.client, 3);
            assert_eq!(deposit.amount, amount);
            assert!(!deposit.has_dispute);
        }
        Transaction::Withdrawal(_) => panic!("a deposit became a withdrawal"),
    }
    match Transaction::withdrawal(4, amount) {
        Transaction::Withdrawal(withdrawal) => {
            assert_eq!(withdrawal.client, 4);
            assert_eq!(withdrawal.amount, amount);
            assert!(!withdrawal.has_dispute);
        }
        Transaction::Deposit(_) => panic!("a withdrawal became a deposit"),
    }
}
