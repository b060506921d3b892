use payment_settle_accounts::{
    MemoryThreadSafePaymentEngine, Money, PaymentEngine, Transaction, TransactionError,
    TransactionResultSummary, TransactionType,
};

fn sample() -> Vec<Transaction> {
    vec![
        Transaction::builder()
            .client_id(1)
            .transaction_id(1)
            .amount(1)
            .ty(TransactionType::Deposit)
            .build(),
        Transaction::builder()
            .client_id(1)
            .transaction_id(2)
            .amount(1)
            .ty(TransactionType::Deposit)
            .build(),
        Transaction::builder()
            .client_id(2)
            .transaction_id(1)
            .amount(10)
            .ty(TransactionType::Deposit)
            .build(),
        Transaction::builder()
            .client_id(1)
            .transaction_id(1)
            .ty(TransactionType::Dispute)
            .build(),
        Transaction::builder()
            .client_id(2)
            .transaction_id(4)
            .amount(2)
            .ty(TransactionType::Withdrawal)
            .build(),
        Transaction::builder()
            .client_id(1)
            .transaction_id(1)
            .ty(TransactionType::Chargeback)
            .build(),
    ]
}

fn report_of(reports: &[TransactionResultSummary], client: u16) -> TransactionResultSummary {
    *reports.iter().find(|r| r.client == client).unwrap()
}

// Ten handles to one engine send the same transactions, one handle after
// the other. What a handle sends may be turned down, by the rules, because
// of what another sent before; in the end there are the two accounts.
#[test]
fn memory_test_process() {
    let memory_engine = MemoryThreadSafePaymentEngine::new();

    let num_handles = 10;
    let transactions = sample();

    let handles: Vec<_> = (0..num_handles).map(|_| memory_engine.clone()).collect();
    for mut handle in handles {
        for transaction in transactions.clone() {
            let _ = handle.process(&transaction);
        }
    }

    let memory_engine_summary = memory_engine.clone().summary().unwrap();
    assert_eq!(memory_engine_summary.len(), 2);
}

#[test]
fn memory_test_process_with_existing_tx_by_id() {
    let mut state = MemoryThreadSafePaymentEngine::new();
    let client_id = 1;
    let transaction_id = 1;
    let transaction = Transaction::builder()
        .client_id(client_id)
        .transaction_id(transaction_id)
        .amount(1)
        .ty(TransactionType::Deposit)
        .build();

    let result = state.process(&transaction);

    assert!(result.is_ok());
    assert_eq!(state.summary().unwrap().len(), 1);
}

#[test]
fn memory_test_process_with_non_existing_tx_by_id() {
    let mut state = MemoryThreadSafePaymentEngine::new();
    let client_id = 1;
    let transaction_id = 1;
    let transaction = Transaction::builder()
        .client_id(client_id)
        .transaction_id(transaction_id)
        .amount(1)
        .ty(TransactionType::Deposit)
        .build();

    let result = state.process(&transaction);

    assert!(result.is_ok());
    assert_eq!(state.summary().unwrap().len(), 1);
}

#[test]
fn memory_test_process_with_should_be_tracked() {
    let mut state = MemoryThreadSafePaymentEngine::new();
    let client_id = 1;
    let transaction_id = 1;
    let transaction = Transaction::builder()
        .client_id(client_id)
        .transaction_id(transaction_id)
        .amount(1)
        .ty(TransactionType::Deposit)
        .build();
    assert!(transaction.should_be_tracked());

    let result = state.process(&transaction);

    assert!(result.is_ok());
}

// A resolution on an engine without accounts: the account is opened, and
// the engine hands on the account's refusal.
#[test]
fn memory_test_process_with_empty_txs() {
    let mut state = MemoryThreadSafePaymentEngine::new();
    let client_id = 1;
    let transaction_id = 1;
    let transaction = Transaction::builder()
        .client_id(client_id)
        .transaction_id(transaction_id)
        .amount(1)
        .ty(TransactionType::Resolve)
        .build();
    assert!(!transaction.should_be_tracked());

    let result = state.process(&transaction);

    assert!(matches!(
        result,
        Err(TransactionError::CannotResolveWithoutDispute(_))
    ));
    assert_eq!(state.summary().unwrap().len(), 1);
}

#[test]
fn transaction_test_process() {
    let memory_engine = MemoryThreadSafePaymentEngine::new();
    let num_handles = 10;
    let transactions = sample();

    let handles: Vec<_> = (0..num_handles).map(|_| memory_engine.clone()).collect();
    let mut accepted = 0;
    for mut handle in handles {
        for transaction in transactions.clone() {
            if handle.process(&transaction).is_ok() {
                accepted += 1;
            }
        }
    }

    // Each of the six is accepted once, from the handle that sends it
    // first: the second deposit of a number is a duplicate, and after the
    // chargeback client 1 is locked. Only the withdrawal of 2 from
    // client 2 can come more often, as long as 10 lasts: five times.
    assert_eq!(accepted, 5 + 5);
    let reports = memory_engine.summary().unwrap();
    assert_eq!(reports.len(), 2);
    let second = report_of(&reports, 2);
    assert_eq!(second.available, Money::from(0));
    assert_eq!(second.total, Money::from(0));
    assert!(!second.locked);
    let first = report_of(&reports, 1);
    assert!(first.locked);
    assert_eq!(first.held, Money::from(0));
}

#[test]
fn transaction_test_process_with_existing_tx_by_id() {
    let mut state = MemoryThreadSafePaymentEngine::new();
    let transaction = Transaction::builder()
        .client_id(1)
        .transaction_id(1)
        .amount(1)
        .ty(TransactionType::Deposit)
        .build();

    // The deposit is known already when it comes again.
    assert!(state.process(&transaction).is_ok());
    let result = state.process(&transaction);

    assert!(matches!(
        result,
        Err(TransactionError::DuplicateTransaction(_))
    ));
    let reports = state.summary().unwrap();
    assert_eq!(reports.len(), 1);
    assert_eq!(reports[0].available, Money::from(1));
}

#[test]
fn transaction_test_process_with_non_existing_tx_by_id() {
    let mut state = MemoryThreadSafePaymentEngine::new();
    let transaction = Transaction::builder()
        .client_id(1)
        .transaction_id(1)
        .amount(1)
        .ty(TransactionType::Deposit)
        .build();

    let result = state.process(&transaction);

    assert!(result.is_ok());
    let reports = state.summary().unwrap();
    assert_eq!(reports.len(), 1);
    assert_eq!(reports[0].client, 1);
    assert_eq!(reports[0].available, Money::from(1));
}

#[test]
fn transaction_test_process_with_should_be_tracked() {
    let mut state = MemoryThreadSafePaymentEngine::new();
    let transaction = Transaction::builder()
        .client_id(1)
        .transaction_id(1)
        .amount(1)
        .ty(TransactionType::Deposit)
        .build();

    let result = state.process(&transaction);

    assert!(result.is_ok());
    // The deposit can be referred to: a dispute of it is accepted.
    let dispute = Transaction::builder()
        .client_id(1)
        .transaction_id(1)
        .ty(TransactionType::Dispute)
        .build();
    assert!(dispute.should_be_tracked());
    assert!(state.process(&dispute).is_ok());
    assert_eq!(state.summary().unwrap()[0].held, Money::from(1));
}

#[test]
fn transaction_test_process_with_empty_txs() {
    let mut state = MemoryThreadSafePaymentEngine::new();
    let transaction = Transaction::builder()
        .client_id(1)
        .transaction_id(1)
        .amount(1)
        .ty(TransactionType::Resolve)
        .build();

    let result = state.process(&transaction);

    assert!(result.is_err());
    let reports = state.summary().unwrap();
    assert_eq!(reports.len(), 1);
    assert_eq!(reports[0].available, Money::from(0));
    assert_eq!(reports[0].held, Money::from(0));
}

fn shared_by_threads<T: Send + Sync + Clone>() {}

#[test]
fn the_engine_can_be_shared_by_threads() {
    shared_by_threads::<MemoryThreadSafePaymentEngine>();
}
