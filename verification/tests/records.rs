use txh::amount::Amount;
use txh::client::ClientState;
use txh::event::Event;
use txh::records::{ClientCsvRecord, Error, EventCsvRecord};

fn dec(n: i128) -> Amount {
    Amount::new(n, 0).unwrap()
}

fn row(ty: &str, client: u16, tx: u32, amount: Amount) -> EventCsvRecord {
    EventCsvRecord { ty: ty.into(), client, tx, amount }
}

#[test]
fn rows_become_events() {
    let amount = Amount::new(12345678, 4).unwrap();
    assert_eq!(Event::try_from(row("deposit", 1, 2, amount)).unwrap(), Event::deposit(1, 2, amount));
    assert_eq!(Event::try_from(row("withdrawal", 1, 2, amount)).unwrap(), Event::withdrawal(1, 2, amount));
    assert_eq!(Event::try_from(row("dispute", 3, 4, dec(0))).unwrap(), Event::dispute(3, 4));
    assert_eq!(Event::try_from(row("resolve", 3, 4, dec(0))).unwrap(), Event::resolve(3, 4));
    assert_eq!(Event::try_from(row("chargeback", 3, 4, dec(0))).unwrap(), Event::chargeback(3, 4));
}

#[test]
fn amount_of_a_reference_is_ignored() {
    assert_eq!(Event::try_from(row("dispute", 3, 4, dec(99))).unwrap(), Event::dispute(3, 4));
    assert_eq!(Event::try_from(row("resolve", 3, 4, dec(-1))).unwrap(), Event::resolve(3, 4));
    assert_eq!(Event::try_from(row("chargeback", 3, 4, dec(5))).unwrap(), Event::chargeback(3, 4));
}

#[test]
fn unknown_types_are_rejected() {
    for ty in ["Deposit", "DEPOSIT", "deposit ", " deposit", "", "transfer", "depositt", "charge back"] {
        match Event::try_from(row(ty, 0, 0, dec(1))) {
            Err(Error::InvalidTransactionType(named)) => assert_eq!(named, ty),
            Ok(event) => panic!("{ty:?} became {event:?}"),
        }
    }
}

#[test]
fn event_rows_can_be_cloned() {
    let first = row("deposit", 1, 2, dec(3));
    assert_eq!(first.clone(), first);
}

#[test]
fn report_row_of_a_client() {
    let state = ClientState::new(true, Amount::new(15, 1).unwrap(), dec(2));
    let row = ClientCsvRecord::new(7, &state).unwrap();
    assert_eq!(row.client, 7);
    assert_eq!(row.available, Amount::new(15, 1).unwrap());
    assert_eq!(row.held, dec(2));
    assert_eq!((row.total.mantissa(), row.total.scale()), (35, 1));
    assert!(row.locked);

    let row = ClientCsvRecord::new(8, &ClientState::default()).unwrap();
    assert_eq!(
        row,
        ClientCsvRecord { client: 8, available: dec(0), held: dec(0), total: dec(0), locked: false }
    );
}

#[test]
fn report_row_needs_a_total() {
    let max = Amount::new(79_228_162_514_264_337_593_543_950_335, 0).unwrap();
    assert_eq!(ClientCsvRecord::new(1, &ClientState::new(false, max, dec(1))), None);
}

#[test]
fn deserialize() -> Result<(), csv::Error> {
    let input = [
        "deposit,0,1,1234.5678",
        "withdrawal,0,1,-42.42",
        "dispute,0,1  ,0", // Whitespace
        "resolve,0,1,",    // Missing amount number
        "chargeback,0,1",  // Missing comma
    ];

    let expected = [
        row("deposit", 0, 1, Amount::new(12345678, 4).unwrap()),
        row("withdrawal", 0, 1, Amount::new(-4242, 2).unwrap()),
        row("dispute", 0, 1, dec(0)),
        row("resolve", 0, 1, dec(0)),
        row("chargeback", 0, 1, dec(0)),
    ];

    // `.zip()` ends when the first iterator returns `None`, so we need to check for the correct length.
    assert_eq!(input.len(), expected.len());

    let input = input.join("\\n");

    let mut rdr = csv::Reader::from_reader(input.as_bytes());
    for (record, expected) in rdr.deserialize().zip(expected.into_iter()) {
        let (ty, client, tx, amount): (String, u16, u32, rust_decimal::Decimal) = record?;
        let record = EventCsvRecord {
            ty,
            client,
            tx,
            amount: Amount::new(amount.mantissa(), amount.scale()).unwrap(),
        };
        assert_eq!(record, expected);
    }

    Ok(())
}
