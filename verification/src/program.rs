//! The pipeline that reads transactions from a source, hands them to a
//! payment engine and writes the engine's reports to a sink.

use crate::engine::PaymentEngine;
use crate::errors::TransactionError;
use crate::summary::TransactionResultSummary;
use crate::transaction::Transaction;
use vstd::prelude::*;

verus! {

/// Where transactions come from.
pub trait Source {
    /// The transactions in their order, each read or failed; or the reason
    /// why none could be read.
    fn read(&mut self) -> Result<Vec<Result<Transaction, TransactionError>>, TransactionError>;
}

/// Where reports go.
pub trait Sink {
    /// Takes one report.
    fn write(&mut self, record: TransactionResultSummary) -> Result<(), TransactionError>;
}

/// What can be run from start to end.
pub trait Pipeline {
    /// Runs the pipeline.
    fn run(&mut self) -> Result<(), TransactionError>;
}

/// The first failure among `outcomes` from the `from`-th on, and `Ok` if
/// there is none.
pub open spec fn first_failure_from(outcomes: Seq<Result<(), TransactionError>>, from: int) -> Result<
    (),
    TransactionError,
>
    decreases outcomes.len() - from,
{
    if from < 0 || from >= outcomes.len() {
        Ok(())
    } else {
        match outcomes[from] {
            Err(e) => Err(e),
            Ok(_) => first_failure_from(outcomes, from + 1),
        }
    }
}

/// The first failure among `outcomes`, and `Ok` if there is none.
pub open spec fn first_failure(outcomes: Seq<Result<(), TransactionError>>) -> Result<(), TransactionError> {
    first_failure_from(outcomes, 0)
}

/// What comes of each record when the engine answers `answers[i]` to the
/// transaction of the `i`-th: the failure of a record that failed, and the
/// engine's answer for one that was read.
pub open spec fn outcomes(
    records: Seq<Result<Transaction, TransactionError>>,
    answers: Seq<Result<(), TransactionError>>,
) -> Seq<Result<(), TransactionError>> {
    Seq::new(
        records.len(),
        |i: int|
            match records[i] {
                Err(e) => Err(e),
                Ok(_) => answers[i],
            },
    )
}

/// Outcomes that are `Ok` up to the `n`-th do not hold the first failure.
pub proof fn lemma_first_failure_skips(outcomes: Seq<Result<(), TransactionError>>, n: int)
    requires
        0 <= n <= outcomes.len(),
        forall|i: int| 0 <= i < n ==> outcomes[i] is Ok,
    ensures
        first_failure(outcomes) == first_failure_from(outcomes, n),
    decreases n,
{
    if n > 0 {
        lemma_first_failure_skips(outcomes, n - 1);
    }
}

/// A source, a payment engine and a sink, put in a row.
#[derive(Debug)]
pub struct TransactionPipeline<S, F, K> {
    source: S,
    filter: F,
    sink: K,
}

/// Puts pipelines together.
#[derive(Debug)]
pub struct TransactionPipelineBuilder {}

impl TransactionPipelineBuilder {
    /// The pipeline from `source` through `filter` to `sink`.
    pub fn pipeline<S: Source, F: PaymentEngine, K: Sink>(source: S, filter: F, sink: K) -> (r:
        TransactionPipeline<S, F, K>)
        ensures
            r.source() == source,
            r.filter() == filter,
            r.sink() == sink,
    {
        TransactionPipeline { source, filter, sink }
    }
}

impl<S, F, K> TransactionPipeline<S, F, K> {
    /// The source, in contracts.
    pub closed spec fn source(self) -> S {
        self.source
    }

    /// The payment engine, in contracts.
    pub closed spec fn filter(self) -> F {
        self.filter
    }

    /// The sink, in contracts.
    pub closed spec fn sink(self) -> K {
        self.sink
    }
}

impl<S: Source, F: PaymentEngine, K: Sink> TransactionPipeline<S, F, K> {
    /// Hands the transactions of `records` to the engine, in their order,
    /// up to the first record that failed or that the engine fails on, and
    /// returns that failure; `Ok` if there is none. What the engine answers
    /// is the engine's own matter: the result is the first failure among
    /// the outcomes that the records and some answers of the engine make.
    /// So a failed record is never passed over, and no records give `Ok`.
    /// The source and the sink are left alone.
    pub fn feed(&mut self, records: Vec<Result<Transaction, TransactionError>>) -> (res: Result<
        (),
        TransactionError,
    >)
        ensures
            exists|answers: Seq<Result<(), TransactionError>>|
                answers.len() == records@.len() && res == first_failure(#[trigger] outcomes(records@, answers)),
            res is Ok ==> forall|i: int| 0 <= i < records@.len() ==> records@[i] is Ok,
            final(self).source() == old(self).source(),
            final(self).sink() == old(self).sink(),
    {
        let ghost all = records@;
        for record in iter: records
            invariant
                iter.seq() == all,
                forall|i: int| 0 <= i < iter.index() ==> all[i] is Ok,
                self.source() == old(self).source(),
                self.sink() == old(self).sink(),
        {
            let ghost at = iter.index();
            match record {
                Ok(transaction) => {
                    match self.filter.process(&transaction) {
                        Ok(_) => {},
                        Err(e) => {
                            proof {
                                let answers = Seq::new(
                                    all.len(),
                                    |i: int|
                                        if i == at {
                                            Err::<(), TransactionError>(e)
                                        } else {
                                            Ok(())
                                        },
                                );
                                lemma_first_failure_skips(outcomes(all, answers), at);
                            }
                            return Err(e);
                        },
                    }
                },
                Err(e) => {
                    proof {
                        let answers = Seq::new(all.len(), |i: int| Ok::<(), TransactionError>(()));
                        lemma_first_failure_skips(outcomes(all, answers), at);
                    }
                    return Err(e);
                },
            }
        }
        proof {
            let answers = Seq::new(all.len(), |i: int| Ok::<(), TransactionError>(()));
            lemma_first_failure_skips(outcomes(all, answers), all.len() as int);
        }
        Ok(())
    }

    /// Hands `reports` to the sink, in their order, up to the first that
    /// the sink fails on, and returns that failure; `Ok` if there is none.
    /// What the sink answers is the sink's own matter: the result is the
    /// first failure among some answers of the sink, one for each report.
    /// So no reports give `Ok`. The source and the engine are left alone.
    pub fn report(&mut self, reports: Vec<TransactionResultSummary>) -> (res: Result<(), TransactionError>)
        ensures
            exists|answers: Seq<Result<(), TransactionError>>|
                answers.len() == reports@.len() && res == #[trigger] first_failure(answers),
            final(self).source() == old(self).source(),
            final(self).filter() == old(self).filter(),
    {
        let ghost n = reports@.len();
        for report in iter: reports
            invariant
                iter.seq().len() == n,
                self.source() == old(self).source(),
                self.filter() == old(self).filter(),
        {
            let ghost at = iter.index();
            match self.sink.write(report) {
                Ok(_) => {},
                Err(e) => {
                    proof {
                        let answers = Seq::new(
                            n,
                            |i: int|
                                if i == at {
                                    Err::<(), TransactionError>(e)
                                } else {
                                    Ok(())
                                },
                        );
                        lemma_first_failure_skips(answers, at);
                    }
                    return Err(e);
                },
            }
        }
        proof {
            let answers = Seq::new(n, |i: int| Ok::<(), TransactionError>(()));
            lemma_first_failure_skips(answers, n as int);
        }
        Ok(())
    }
}

impl<S: Source, F: PaymentEngine, K: Sink> Pipeline for TransactionPipeline<S, F, K> {
    /// Reads the source, feeds the engine, asks it for its reports and
    /// writes them to the sink. The first failure ends the run and is the
    /// result.
    fn run(&mut self) -> (res: Result<(), TransactionError>) {
        let records = self.source.read()?;
        self.feed(records)?;
        let reports = self.filter.summary()?;
        self.report(reports)
    }
}

} // verus!
