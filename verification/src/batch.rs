//! Row batches: how a table of `total` rows is cut into windows of
//! `chunk` rows, who receives the windows, and who hears of the progress.

use vstd::prelude::*;
use polars::prelude::DataFrame;
use crate::engine::{frame_rows, frame_schema, row_count};
use crate::error::InsightoraError;

verus! {

/// How many batches a table of `total` rows gives: `total / chunk`, rounded up.
pub open spec fn batch_count(total: nat, chunk: nat) -> nat
    recommends
        chunk > 0,
{
    ((total + chunk - 1) / (chunk as int)) as nat
}

/// The row at which batch `k` starts.
pub open spec fn batch_start(total: nat, chunk: nat, k: nat) -> nat {
    if k * chunk < total {
        k * chunk
    } else {
        total
    }
}

/// The row before which batch `k` ends: a full chunk further, or the end of
/// the table where fewer rows are left.
pub open spec fn batch_end(total: nat, chunk: nat, k: nat) -> nat {
    batch_start(total, chunk, k + 1)
}

/// The number of rows in batch `k`.
pub open spec fn batch_len(total: nat, chunk: nat, k: nat) -> nat {
    (batch_end(total, chunk, k) - batch_start(total, chunk, k)) as nat
}

/// The rows of batch `k`.
pub open spec fn batch_rows<A>(rows: Seq<A>, chunk: nat, k: nat) -> Seq<A> {
    rows.subrange(
        batch_start(rows.len(), chunk, k) as int,
        batch_end(rows.len(), chunk, k) as int,
    )
}

/// The first `n` batches laid end to end.
pub open spec fn joined_batches<A>(rows: Seq<A>, chunk: nat, n: nat) -> Seq<A>
    decreases n,
{
    if n == 0 {
        Seq::empty()
    } else {
        joined_batches(rows, chunk, (n - 1) as nat) + batch_rows(rows, chunk, (n - 1) as nat)
    }
}

/// Batch `k` exists exactly when its first row does.
pub proof fn lemma_batch_exists(total: nat, chunk: nat, k: nat)
    requires
        chunk > 0,
    ensures
        k < batch_count(total, chunk) <==> k * chunk < total,
{
    let count = (total + chunk - 1) / (chunk as int);
    let rest = (total + chunk - 1) % (chunk as int);
    vstd::arithmetic::div_mod::lemma_fundamental_div_mod(total + chunk - 1, chunk as int);
    assert(total + chunk - 1 == chunk * count + rest);
    assert(0 <= rest < chunk);
    assert(count >= 0) by (nonlinear_arith)
        requires
            total + chunk - 1 == chunk * count + rest,
            0 <= rest < chunk,
            chunk > 0,
    ;
    if k < count {
        assert(k * chunk < total) by (nonlinear_arith)
            requires
                k + 1 <= count,
                total + chunk - 1 == chunk * count + rest,
                0 <= rest < chunk,
                chunk > 0,
        ;
    } else {
        assert(k * chunk >= total) by (nonlinear_arith)
            requires
                k >= count,
                total + chunk - 1 == chunk * count + rest,
                0 <= rest < chunk,
                chunk > 0,
        ;
    }
}

/// A batch ends a full chunk after its start, or at the end of the table
/// where that comes first.
pub proof fn lemma_batch_end(total: nat, chunk: nat, k: nat)
    requires
        chunk > 0,
        k < batch_count(total, chunk),
    ensures
        batch_start(total, chunk, k) == k * chunk,
        batch_end(total, chunk, k) == if k * chunk + chunk < total {
            k * chunk + chunk
        } else {
            total
        },
        batch_start(total, chunk, k) < batch_end(total, chunk, k) <= total,
{
    lemma_batch_exists(total, chunk, k);
    assert((k + 1) * chunk == k * chunk + chunk) by (nonlinear_arith);
}

/// The number of batches is `total / chunk` rounded up: the batches cover
/// the table, and one batch fewer would not. A table without rows gives no batch.
pub proof fn lemma_batch_count_is_ceiling(total: nat, chunk: nat)
    requires
        chunk > 0,
    ensures
        batch_count(total, chunk) * chunk >= total,
        total > 0 ==> (batch_count(total, chunk) - 1) * chunk < total,
        total == 0 <==> batch_count(total, chunk) == 0,
        total % chunk == 0 ==> batch_count(total, chunk) == total / chunk,
        total % chunk != 0 ==> batch_count(total, chunk) == total / chunk + 1,
{
    let count = batch_count(total, chunk);
    lemma_batch_exists(total, chunk, count);
    if total > 0 {
        lemma_batch_exists(total, chunk, 0);
        assert(0 * chunk == 0) by (nonlinear_arith);
        lemma_batch_exists(total, chunk, (count - 1) as nat);
    } else {
        assert(count == 0) by {
            if count > 0 {
                lemma_batch_exists(total, chunk, 0);
                assert(0 * chunk == 0) by (nonlinear_arith);
            }
        }
    }
    let whole = total / chunk;
    let rest = total % chunk;
    vstd::arithmetic::div_mod::lemma_fundamental_div_mod(total as int, chunk as int);
    assert(total == chunk * whole + rest);
    lemma_batch_exists(total, chunk, whole);
    lemma_batch_exists(total, chunk, whole + 1);
    assert(whole * chunk == chunk * whole) by (nonlinear_arith);
    assert((whole + 1) * chunk == chunk * whole + chunk) by (nonlinear_arith);
    if whole > 0 {
        lemma_batch_exists(total, chunk, (whole - 1) as nat);
        assert((whole - 1) * chunk == chunk * whole - chunk) by (nonlinear_arith);
    }
}

/// Every batch but the last holds a full chunk; the last holds what is left:
/// `total % chunk` rows, or a full chunk where that is zero.
pub proof fn lemma_batch_sizes(total: nat, chunk: nat, k: nat)
    requires
        chunk > 0,
        k < batch_count(total, chunk),
    ensures
        k + 1 < batch_count(total, chunk) ==> batch_len(total, chunk, k) == chunk,
        k + 1 == batch_count(total, chunk) ==> batch_len(total, chunk, k) == if total % chunk
            == 0 {
            chunk
        } else {
            total % chunk
        },
        0 < batch_len(total, chunk, k) <= chunk,
{
    lemma_batch_end(total, chunk, k);
    lemma_batch_exists(total, chunk, k + 1);
    assert((k + 1) * chunk == k * chunk + chunk) by (nonlinear_arith);
    if k + 1 == batch_count(total, chunk) {
        lemma_batch_count_is_ceiling(total, chunk);
        let whole = total / chunk;
        let rest = total % chunk;
        vstd::arithmetic::div_mod::lemma_fundamental_div_mod(total as int, chunk as int);
        assert(total == chunk * whole + rest);
        if rest == 0 {
            assert(k + 1 == whole);
            assert(k * chunk == chunk * whole - chunk) by (nonlinear_arith)
                requires
                    k + 1 == whole,
            ;
        } else {
            assert(k == whole);
            assert(k * chunk == chunk * whole) by (nonlinear_arith)
                requires
                    k == whole,
            ;
        }
    }
}

/// Batches follow each other without a gap and without a shared row: each
/// starts where the one before ended, the first at the first row, and the
/// last ends with the table.
pub proof fn lemma_batches_are_contiguous(total: nat, chunk: nat, k: nat)
    requires
        chunk > 0,
    ensures
        batch_start(total, chunk, 0) == 0,
        batch_start(total, chunk, k + 1) == batch_end(total, chunk, k),
        batch_start(total, chunk, k) <= batch_end(total, chunk, k) <= total,
        k >= batch_count(total, chunk) ==> batch_start(total, chunk, k) == total,
{
    assert(0 * chunk == 0) by (nonlinear_arith);
    assert((k + 1) * chunk == k * chunk + chunk) by (nonlinear_arith);
    lemma_batch_exists(total, chunk, k);
}

/// The first `n` batches, laid end to end in the order of delivery, are the
/// rows before the end of batch `n - 1`, each once.
pub proof fn lemma_joined_batches_are_a_prefix<A>(rows: Seq<A>, chunk: nat, n: nat)
    requires
        chunk > 0,
    ensures
        joined_batches(rows, chunk, n) == rows.take(batch_start(rows.len(), chunk, n) as int),
    decreases n,
{
    lemma_batches_are_contiguous(rows.len(), chunk, n);
    if n == 0 {
        assert(rows.take(0) =~= Seq::<A>::empty());
    } else {
        let before = (n - 1) as nat;
        lemma_joined_batches_are_a_prefix(rows, chunk, before);
        lemma_batches_are_contiguous(rows.len(), chunk, before);
        assert(rows.take(batch_start(rows.len(), chunk, before) as int) + batch_rows(
            rows,
            chunk,
            before,
        ) =~= rows.take(batch_start(rows.len(), chunk, n) as int));
    }
}

/// All batches, laid end to end in the order of delivery, are the rows of
/// the table: none is left out and none comes twice.
pub proof fn lemma_joined_batches_are_all_rows<A>(rows: Seq<A>, chunk: nat)
    requires
        chunk > 0,
    ensures
        joined_batches(rows, chunk, batch_count(rows.len(), chunk)) == rows,
{
    let count = batch_count(rows.len(), chunk);
    lemma_joined_batches_are_a_prefix(rows, chunk, count);
    lemma_batches_are_contiguous(rows.len(), chunk, count);
    assert(rows.take(rows.len() as int) =~= rows);
}

/// A report of progress: how much has been processed, out of how much.
#[derive(Debug, Clone, Copy, PartialEq, Eq, Structural)]
pub struct ProgressEvent {
    pub processed: u64,
    pub total: u64,
}

/// The reports that follow the first `n` batches: after batch `k`, the rows
/// up to its end out of all rows.
pub open spec fn batch_events(total: nat, chunk: nat, n: nat) -> Seq<ProgressEvent> {
    Seq::new(
        n,
        |k: int|
            ProgressEvent { processed: batch_end(total, chunk, k as nat) as u64, total: total as u64 },
    )
}

/// One batch as its consumer met it: the columns, the rows, and the error
/// the consumer refused it with, if it did.
pub struct Delivery {
    pub schema: Seq<(Seq<char>, Seq<char>)>,
    pub rows: Seq<Seq<Option<Seq<char>>>>,
    pub refusal: Option<InsightoraError>,
}

/// The refusal in a consumer's answer.
pub open spec fn refusal_of(outcome: Result<(), InsightoraError>) -> Option<InsightoraError> {
    match outcome {
        Ok(_) => None,
        Err(error) => Some(error),
    }
}

/// The first `n` batches of a table, each accepted.
pub open spec fn accepted_batches(
    schema: Seq<(Seq<char>, Seq<char>)>,
    rows: Seq<Seq<Option<Seq<char>>>>,
    chunk: nat,
    n: nat,
) -> Seq<Delivery> {
    Seq::new(
        n,
        |k: int| Delivery { schema, rows: batch_rows(rows, chunk, k as nat), refusal: None },
    )
}

/// The rows of the batches in `deliveries`, laid end to end in the order of
/// delivery.
pub open spec fn delivered_rows(deliveries: Seq<Delivery>) -> Seq<Seq<Option<Seq<char>>>>
    decreases deliveries.len(),
{
    if deliveries.len() == 0 {
        Seq::empty()
    } else {
        delivered_rows(deliveries.drop_last()) + deliveries.last().rows
    }
}

/// What a consumer has met after the first `n` batches is those batches
/// laid end to end.
pub proof fn lemma_accepted_batches_join(
    schema: Seq<(Seq<char>, Seq<char>)>,
    rows: Seq<Seq<Option<Seq<char>>>>,
    chunk: nat,
    n: nat,
)
    ensures
        delivered_rows(accepted_batches(schema, rows, chunk, n)) == joined_batches(rows, chunk, n),
    decreases n,
{
    if n > 0 {
        let before = (n - 1) as nat;
        assert(accepted_batches(schema, rows, chunk, n).drop_last() =~= accepted_batches(
            schema,
            rows,
            chunk,
            before,
        ));
        lemma_accepted_batches_join(schema, rows, chunk, before);
    }
}

/// A run in which every batch is accepted hands over `total / chunk`
/// batches, rounded up, and their rows, in the order of delivery, are the
/// rows of the table: each once and none left out.
pub proof fn lemma_accepted_batches_deliver_all_rows(
    schema: Seq<(Seq<char>, Seq<char>)>,
    rows: Seq<Seq<Option<Seq<char>>>>,
    chunk: nat,
)
    requires
        chunk > 0,
    ensures
        accepted_batches(schema, rows, chunk, batch_count(rows.len(), chunk)).len() == batch_count(
            rows.len(),
            chunk,
        ),
        delivered_rows(accepted_batches(schema, rows, chunk, batch_count(rows.len(), chunk)))
            == rows,
{
    lemma_accepted_batches_join(schema, rows, chunk, batch_count(rows.len(), chunk));
    lemma_joined_batches_are_all_rows(rows, chunk);
}

/// Receives the batches of a table, one call per batch.
pub trait BatchConsumer {
    /// Every batch handed over so far, oldest first, with the answer given.
    spec fn deliveries(&self) -> Seq<Delivery>;

    /// Takes one batch. An error stops the run.
    fn consume(&mut self, batch: DataFrame) -> (outcome: Result<(), InsightoraError>)
        ensures
            final(self).deliveries() == old(self).deliveries().push(
                Delivery {
                    schema: frame_schema(batch),
                    rows: frame_rows(batch),
                    refusal: refusal_of(outcome),
                },
            ),
    ;
}

/// Hears of progress, one call per report.
pub trait ProgressObserver {
    /// Every report heard so far, oldest first.
    spec fn reported(&self) -> Seq<ProgressEvent>;

    /// Takes one report.
    fn on_progress(&mut self, event: ProgressEvent)
        ensures
            final(self).reported() == old(self).reported().push(event),
    ;
}

/// One step of a run over the batches of a table.
pub enum Step {
    /// A batch was handed to the consumer, which answered.
    Handed(Delivery),
    /// A report was made to the observer.
    Reported(ProgressEvent),
}

/// The steps of the first `n` batches of a run in which each is accepted:
/// batch `k` is handed over, then the report after batch `k` is made, then
/// batch `k + 1` is handed over.
pub open spec fn run_steps(
    schema: Seq<(Seq<char>, Seq<char>)>,
    rows: Seq<Seq<Option<Seq<char>>>>,
    chunk: nat,
    n: nat,
) -> Seq<Step> {
    Seq::new(
        2 * n,
        |i: int|
            if i % 2 == 0 {
                Step::Handed(
                    Delivery { schema, rows: batch_rows(rows, chunk, (i / 2) as nat), refusal: None },
                )
            } else {
                Step::Reported(
                    ProgressEvent {
                        processed: batch_end(rows.len(), chunk, (i / 2) as nat) as u64,
                        total: rows.len() as u64,
                    },
                )
            },
    )
}

/// One more accepted batch adds its two steps: handed over, then reported.
pub proof fn lemma_run_steps_extend(
    schema: Seq<(Seq<char>, Seq<char>)>,
    rows: Seq<Seq<Option<Seq<char>>>>,
    chunk: nat,
    n: nat,
)
    ensures
        run_steps(schema, rows, chunk, n + 1) == run_steps(schema, rows, chunk, n).push(
            Step::Handed(Delivery { schema, rows: batch_rows(rows, chunk, n), refusal: None }),
        ).push(
            Step::Reported(
                ProgressEvent {
                    processed: batch_end(rows.len(), chunk, n) as u64,
                    total: rows.len() as u64,
                },
            ),
        ),
{
    assert(run_steps(schema, rows, chunk, n + 1) =~= run_steps(schema, rows, chunk, n).push(
        Step::Handed(Delivery { schema, rows: batch_rows(rows, chunk, n), refusal: None }),
    ).push(
        Step::Reported(
            ProgressEvent {
                processed: batch_end(rows.len(), chunk, n) as u64,
                total: rows.len() as u64,
            },
        ),
    ));
}

/// The record of the calls made to consumers and observers, in the order in
/// which they were made. A step gets into the record only by the call it
/// stands for: [`RunJournal::hand_over`] and [`RunJournal::report`] make
/// the call and note it.
pub struct RunJournal {
    steps: Ghost<Seq<Step>>,
}

impl RunJournal {
    /// The steps noted so far, oldest first.
    pub closed spec fn steps(self) -> Seq<Step> {
        self.steps@
    }

    /// A record without steps.
    pub fn new() -> (journal: Self)
        ensures
            journal.steps() == Seq::<Step>::empty(),
    {
        RunJournal { steps: Ghost(Seq::empty()) }
    }

    /// Hands `batch` to `consumer` and notes the step with the answer.
    pub fn hand_over<C: BatchConsumer>(&mut self, consumer: &mut C, batch: DataFrame) -> (outcome:
        Result<(), InsightoraError>)
        ensures
            final(consumer).deliveries() == old(consumer).deliveries().push(
                Delivery {
                    schema: frame_schema(batch),
                    rows: frame_rows(batch),
                    refusal: refusal_of(outcome),
                },
            ),
            final(self).steps() == old(self).steps().push(
                Step::Handed(
                    Delivery {
                        schema: frame_schema(batch),
                        rows: frame_rows(batch),
                        refusal: refusal_of(outcome),
                    },
                ),
            ),
    {
        let ghost schema = frame_schema(batch);
        let ghost rows = frame_rows(batch);
        let outcome = consumer.consume(batch);
        proof {
            self.steps@ = self.steps@.push(
                Step::Handed(Delivery { schema, rows, refusal: refusal_of(outcome) }),
            );
        }
        outcome
    }

    /// Makes the report `event` to `observer` and notes the step.
    pub fn report<P: ProgressObserver>(&mut self, observer: &mut P, event: ProgressEvent)
        ensures
            final(observer).reported() == old(observer).reported().push(event),
            final(self).steps() == old(self).steps().push(Step::Reported(event)),
    {
        observer.on_progress(event);
        proof {
            self.steps@ = self.steps@.push(Step::Reported(event));
        }
    }
}

/// What a consumer that accepted each of `batches` has met.
pub open spec fn deliveries_of(batches: Seq<DataFrame>) -> Seq<Delivery> {
    Seq::new(
        batches.len(),
        |i: int|
            Delivery {
                schema: frame_schema(batches[i]),
                rows: frame_rows(batches[i]),
                refusal: None,
            },
    )
}

/// A consumer that accepts every batch and keeps it.
pub struct BatchCollector {
    batches: Vec<DataFrame>,
}

impl BatchCollector {
    /// The batches kept, oldest first.
    pub closed spec fn kept(self) -> Seq<DataFrame> {
        self.batches@
    }

    /// A collector that holds nothing.
    pub fn new() -> (collector: Self)
        ensures
            collector.kept() == Seq::<DataFrame>::empty(),
            collector.deliveries() == Seq::<Delivery>::empty(),
    {
        let collector = BatchCollector { batches: Vec::new() };
        assert(collector.deliveries() =~= Seq::<Delivery>::empty());
        collector
    }

    /// The batches kept, oldest first.
    pub fn batches(&self) -> (batches: &Vec<DataFrame>)
        ensures
            batches@ == self.kept(),
            self.deliveries() == deliveries_of(batches@),
    {
        &self.batches
    }

    /// The number of rows of each batch kept, oldest first.
    pub fn batch_sizes(&self) -> (sizes: Vec<usize>)
        ensures
            sizes@.len() == self.deliveries().len(),
            forall|i: int|
                0 <= i < sizes@.len() ==> (#[trigger] sizes@[i]) == self.deliveries()[i].rows.len(),
    {
        let mut sizes: Vec<usize> = Vec::new();
        let mut i: usize = 0;
        while i < self.batches.len()
            invariant
                i <= self.batches@.len(),
                sizes@.len() == i,
                forall|j: int|
                    0 <= j < i ==> (#[trigger] sizes@[j]) == frame_rows(self.batches@[j]).len(),
            decreases self.batches@.len() - i,
        {
            sizes.push(row_count(&self.batches[i]));
            i = i + 1;
        }
        sizes
    }
}

impl BatchConsumer for BatchCollector {
    closed spec fn deliveries(&self) -> Seq<Delivery> {
        deliveries_of(self.batches@)
    }

    fn consume(&mut self, batch: DataFrame) -> (outcome: Result<(), InsightoraError>)
        ensures
            outcome is Ok,
            final(self).kept() == old(self).kept().push(batch),
    {
        let ghost met = Delivery {
            schema: frame_schema(batch),
            rows: frame_rows(batch),
            refusal: None,
        };
        self.batches.push(batch);
        assert(self.deliveries() =~= old(self).deliveries().push(met));
        Ok(())
    }
}

/// A consumer that hands every batch to a function of the caller.
pub struct FnConsumer<F: Fn(DataFrame) -> Result<(), InsightoraError>> {
    handler: F,
    met: Ghost<Seq<Delivery>>,
}

impl<F: Fn(DataFrame) -> Result<(), InsightoraError>> FnConsumer<F> {
    #[verifier::type_invariant]
    spec fn well_formed(self) -> bool {
        forall|batch: DataFrame| call_requires(self.handler, (batch,))
    }

    /// The function that takes the batches.
    pub closed spec fn handler(self) -> F {
        self.handler
    }

    /// A consumer around `handler`, which has to take any table.
    pub fn new(handler: F) -> (consumer: Self)
        requires
            forall|batch: DataFrame| call_requires(handler, (batch,)),
        ensures
            consumer.handler() == handler,
            consumer.deliveries() == Seq::<Delivery>::empty(),
    {
        FnConsumer { handler, met: Ghost(Seq::empty()) }
    }
}

impl<F: Fn(DataFrame) -> Result<(), InsightoraError>> BatchConsumer for FnConsumer<F> {
    closed spec fn deliveries(&self) -> Seq<Delivery> {
        self.met@
    }

    fn consume(&mut self, batch: DataFrame) -> (outcome: Result<(), InsightoraError>)
        ensures
            call_ensures(old(self).handler(), (batch,), outcome),
            final(self).handler() == old(self).handler(),
    {
        proof {
            use_type_invariant(&*self);
        }
        let ghost schema = frame_schema(batch);
        let ghost rows = frame_rows(batch);
        let outcome = (self.handler)(batch);
        proof {
            self.met@ = self.met@.push(Delivery { schema, rows, refusal: refusal_of(outcome) });
        }
        outcome
    }
}

/// An observer that keeps every report.
pub struct ProgressLog {
    events: Vec<ProgressEvent>,
}

impl ProgressLog {
    /// A log without reports.
    pub fn new() -> (log: Self)
        ensures
            log.reported() == Seq::<ProgressEvent>::empty(),
    {
        ProgressLog { events: Vec::new() }
    }

    /// The reports kept, oldest first.
    pub fn events(&self) -> (events: &Vec<ProgressEvent>)
        ensures
            events@ == self.reported(),
    {
        &self.events
    }
}

impl ProgressObserver for ProgressLog {
    closed spec fn reported(&self) -> Seq<ProgressEvent> {
        self.events@
    }

    fn on_progress(&mut self, event: ProgressEvent) {
        self.events.push(event);
    }
}

/// The observer of a run that nobody watches: it lets every report pass.
pub struct NoObserver {
    passed: Ghost<Seq<ProgressEvent>>,
}

impl NoObserver {
    /// An observer that has let nothing pass yet.
    pub fn new() -> (observer: Self)
        ensures
            observer.reported() == Seq::<ProgressEvent>::empty(),
    {
        NoObserver { passed: Ghost(Seq::empty()) }
    }
}

impl ProgressObserver for NoObserver {
    closed spec fn reported(&self) -> Seq<ProgressEvent> {
        self.passed@
    }

    fn on_progress(&mut self, event: ProgressEvent) {
        proof {
            self.passed@ = self.passed@.push(event);
        }
    }
}

/// An observer that hands every report to a function of the caller.
pub struct FnObserver<F: Fn(ProgressEvent)> {
    callback: F,
    heard: Ghost<Seq<ProgressEvent>>,
}

impl<F: Fn(ProgressEvent)> FnObserver<F> {
    #[verifier::type_invariant]
    spec fn well_formed(self) -> bool {
        forall|event: ProgressEvent| call_requires(self.callback, (event,))
    }

    /// The function that takes the reports.
    pub closed spec fn callback(self) -> F {
        self.callback
    }

    /// An observer around `callback`, which has to take any report.
    pub fn new(callback: F) -> (observer: Self)
        requires
            forall|event: ProgressEvent| call_requires(callback, (event,)),
        ensures
            observer.callback() == callback,
            observer.reported() == Seq::<ProgressEvent>::empty(),
    {
        FnObserver { callback, heard: Ghost(Seq::empty()) }
    }
}

impl<F: Fn(ProgressEvent)> ProgressObserver for FnObserver<F> {
    closed spec fn reported(&self) -> Seq<ProgressEvent> {
        self.heard@
    }

    fn on_progress(&mut self, event: ProgressEvent)
        ensures
            call_ensures(old(self).callback(), (event,), ()),
            final(self).callback() == old(self).callback(),
    {
        proof {
            use_type_invariant(&*self);
        }
        (self.callback)(event);
        proof {
            self.heard@ = self.heard@.push(event);
        }
    }
}

} // verus!
