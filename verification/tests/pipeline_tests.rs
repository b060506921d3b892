use payment_settle_accounts::{
    Money, PaymentEngine, Pipeline, Sink, Source, Transaction, TransactionError,
    TransactionPipelineBuilder, TransactionResultSummary, TransactionType,
};
use std::cell::Cell;
use std::rc::Rc;

// A source that hands out what it was given, once, and counts the reads.
struct FixedSource {
    records: Option<Result<Vec<Result<Transaction, TransactionError>>, TransactionError>>,
    reads: Rc<Cell<usize>>,
}

impl Source for FixedSource {
    fn read(&mut self) -> Result<Vec<Result<Transaction, TransactionError>>, TransactionError> {
        self.reads.set(self.reads.get() + 1);
        self.records.take().unwrap()
    }
}

// An engine that accepts the first `accepts` transactions and fails on the
// next, reports what it was given, and counts the calls.
struct CountingEngine {
    accepts: usize,
    reports: Option<Result<Vec<TransactionResultSummary>, TransactionError>>,
    processed: Rc<Cell<usize>>,
    summaries: Rc<Cell<usize>>,
}

impl PaymentEngine for CountingEngine {
    fn process(&mut self, transaction: &Transaction) -> Result<(), TransactionError> {
        self.processed.set(self.processed.get() + 1);
        if self.processed.get() > self.accepts {
            Err(TransactionError::InsufficientFunds(*transaction))
        } else {
            Ok(())
        }
    }

    fn summary(&self) -> Result<Vec<TransactionResultSummary>, TransactionError> {
        self.summaries.set(self.summaries.get() + 1);
        match &self.reports {
            Some(Ok(reports)) => Ok(reports.clone()),
            Some(Err(TransactionError::SyncError(text))) => {
                Err(TransactionError::SyncError(text.clone()))
            }
            _ => unreachable!(),
        }
    }
}

// A sink that takes the first `accepts` reports and fails on the next.
struct CountingSink {
    accepts: usize,
    written: Rc<Cell<usize>>,
}

impl Sink for CountingSink {
    fn write(&mut self, _record: TransactionResultSummary) -> Result<(), TransactionError> {
        self.written.set(self.written.get() + 1);
        if self.written.get() > self.accepts {
            Err(TransactionError::SyncError(
                "Error writing to sink".to_string(),
            ))
        } else {
            Ok(())
        }
    }
}

fn three_transactions() -> Vec<Result<Transaction, TransactionError>> {
    vec![
        Ok(Transaction::builder()
            .ty(TransactionType::Deposit)
            .client_id(7)
            .transaction_id(1)
            .amount(3)
            .build()),
        Ok(Transaction::builder()
            .ty(TransactionType::Withdrawal)
            .client_id(7)
            .transaction_id(2)
            .amount(1)
            .build()),
        Ok(Transaction::builder()
            .ty(TransactionType::Dispute)
            .client_id(8)
            .transaction_id(1)
            .build()),
    ]
}

fn two_reports() -> Vec<TransactionResultSummary> {
    vec![
        TransactionResultSummary {
            client: 7,
            available: Money::from(2),
            held: Money::from(0),
            total: Money::from(2),
            locked: false,
        },
        TransactionResultSummary {
            client: 8,
            available: Money::from(0),
            held: Money::from(0),
            total: Money::from(0),
            locked: true,
        },
    ]
}

struct Counters {
    reads: Rc<Cell<usize>>,
    processed: Rc<Cell<usize>>,
    summaries: Rc<Cell<usize>>,
    written: Rc<Cell<usize>>,
}

fn pipeline(
    records: Result<Vec<Result<Transaction, TransactionError>>, TransactionError>,
    engine_accepts: usize,
    reports: Result<Vec<TransactionResultSummary>, TransactionError>,
    sink_accepts: usize,
) -> (Box<dyn Pipeline>, Counters) {
    let counters = Counters {
        reads: Rc::new(Cell::new(0)),
        processed: Rc::new(Cell::new(0)),
        summaries: Rc::new(Cell::new(0)),
        written: Rc::new(Cell::new(0)),
    };
    let source = FixedSource {
        records: Some(records),
        reads: counters.reads.clone(),
    };
    let filter = CountingEngine {
        accepts: engine_accepts,
        reports: Some(reports),
        processed: counters.processed.clone(),
        summaries: counters.summaries.clone(),
    };
    let sink = CountingSink {
        accepts: sink_accepts,
        written: counters.written.clone(),
    };
    (
        Box::new(TransactionPipelineBuilder::pipeline(source, filter, sink)),
        counters,
    )
}

#[test]
fn test_run_success() {
    let (mut transaction_pipeline, counters) =
        pipeline(Ok(three_transactions()), 3, Ok(two_reports()), 2);

    assert!(transaction_pipeline.run().is_ok());

    assert_eq!(counters.reads.get(), 1);
    assert_eq!(counters.processed.get(), 3);
    assert_eq!(counters.summaries.get(), 1);
    assert_eq!(counters.written.get(), 2);
}

#[test]
fn test_run_source_read_error() {
    let (mut transaction_pipeline, counters) = pipeline(
        Err(TransactionError::InvalidTransactionAmount(
            "Invliad amount".to_string(),
        )),
        3,
        Ok(two_reports()),
        2,
    );

    let result = transaction_pipeline.run();

    assert!(result.is_err());
    assert!(
        matches!(result, Err(TransactionError::InvalidTransactionAmount(text)) if text == "Invliad amount")
    );
    assert_eq!(counters.reads.get(), 1);
    assert_eq!(counters.processed.get(), 0);
    assert_eq!(counters.summaries.get(), 0);
    assert_eq!(counters.written.get(), 0);
}

#[test]
fn test_run_process_error() {
    let (mut transaction_pipeline, counters) =
        pipeline(Ok(three_transactions()), 0, Ok(two_reports()), 2);

    let result = transaction_pipeline.run();

    assert!(result.is_err());
    assert!(matches!(
        result,
        Err(TransactionError::InsufficientFunds(_))
    ));
    assert_eq!(counters.processed.get(), 1);
    assert_eq!(counters.summaries.get(), 0);
    assert_eq!(counters.written.get(), 0);
}

#[test]
fn test_run_summary_error() {
    let (mut transaction_pipeline, counters) = pipeline(
        Ok(three_transactions()),
        3,
        Err(TransactionError::SyncError(
            "Error getting summary".to_string(),
        )),
        2,
    );

    let result = transaction_pipeline.run();

    assert!(result.is_err());
    assert!(
        matches!(result, Err(TransactionError::SyncError(text)) if text == "Error getting summary")
    );
    assert_eq!(counters.processed.get(), 3);
    assert_eq!(counters.summaries.get(), 1);
    assert_eq!(counters.written.get(), 0);
}

#[test]
fn test_run_sink_error() {
    let (mut transaction_pipeline, counters) =
        pipeline(Ok(three_transactions()), 3, Ok(two_reports()), 0);

    let result = transaction_pipeline.run();

    assert!(result.is_err());
    assert!(
        matches!(result, Err(TransactionError::SyncError(text)) if text == "Error writing to sink")
    );
    assert_eq!(counters.processed.get(), 3);
    assert_eq!(counters.summaries.get(), 1);
    assert_eq!(counters.written.get(), 1);
}

// A record that could not be read ends the run where it stands: the
// transactions before it were handed on, those after it were not.
#[test]
fn run_stops_at_a_failed_record() {
    let mut records = three_transactions();
    records.insert(
        1,
        Err(TransactionError::CSVError("line 3: no such kind".to_string())),
    );
    let (mut transaction_pipeline, counters) = pipeline(Ok(records), 4, Ok(two_reports()), 2);

    let result = transaction_pipeline.run();

    assert!(
        matches!(result, Err(TransactionError::CSVError(text)) if text == "line 3: no such kind")
    );
    assert_eq!(counters.processed.get(), 1);
    assert_eq!(counters.summaries.get(), 0);
    assert_eq!(counters.written.get(), 0);
}

// Where no collaborator is asked, the outcome is owed: nothing to feed or
// to report gives `Ok`, and a first record that failed is the result.
#[test]
fn feed_and_report_without_a_call() {
    let processed = Rc::new(Cell::new(0));
    let written = Rc::new(Cell::new(0));
    let mut pipeline = TransactionPipelineBuilder::pipeline(
        FixedSource {
            records: None,
            reads: Rc::new(Cell::new(0)),
        },
        CountingEngine {
            accepts: 0,
            reports: None,
            processed: processed.clone(),
            summaries: Rc::new(Cell::new(0)),
        },
        CountingSink {
            accepts: 0,
            written: written.clone(),
        },
    );
    assert!(pipeline.feed(vec![]).is_ok());
    assert!(pipeline.report(vec![]).is_ok());
    let mut records = three_transactions();
    records.insert(
        0,
        Err(TransactionError::CSVError("line 2: no such kind".to_string())),
    );
    let result = pipeline.feed(records);
    assert!(
        matches!(result, Err(TransactionError::CSVError(text)) if text == "line 2: no such kind")
    );
    assert_eq!(processed.get(), 0);
    assert_eq!(written.get(), 0);
    // The engine's failure and the sink's are the results where they are asked.
    assert!(matches!(
        pipeline.feed(three_transactions()),
        Err(TransactionError::InsufficientFunds(_))
    ));
    assert_eq!(processed.get(), 1);
    assert!(matches!(
        pipeline.report(two_reports()),
        Err(TransactionError::SyncError(_))
    ));
    assert_eq!(written.get(), 1);
}
