//! Decisions of the cooperative standard-input adapter.
//!
//! The adapter hands every read attempt to the underlying stream. Where the
//! scheduler cannot wait for the stream to become readable, the stream
//! reports "would block" instead; the adapter then sleeps briefly, giving the
//! thread back to other work, and tries again. What reaches the caller is
//! always the stream's own outcome: data, end of stream, or a lasting error.
use vstd::prelude::*;

verus! {

/// Milliseconds of cooperative sleep between two read attempts.
pub const COOPERATIVE_SLEEP_MS: u32 = 100;

/// How the target waits for standard input.
#[derive(Clone, Copy, Debug, PartialEq, Eq, Structural)]
pub enum ReadStrategy {
    /// The scheduler is woken when input is readable: every outcome is handed on.
    NativeWait,
    /// The stream can only be polled: "would block" is answered by a sleep and a retry.
    PollAndSleep,
}

/// The outcome of one read attempt on the underlying stream.
#[derive(Debug, PartialEq, Eq)]
pub enum ReadAttempt {
    /// The bytes read; none means end of stream.
    Ready(Vec<u8>),
    /// Not readable yet; the scheduler will wake the task.
    Pending,
    /// No data right now, though the stream is open.
    WouldBlock,
    /// A lasting error.
    Failed,
}

/// What the adapter does with an outcome.
#[derive(Debug, PartialEq, Eq)]
pub enum ReadStep {
    /// Return this outcome to the caller.
    Deliver(ReadAttempt),
    /// Sleep this many milliseconds, then attempt the read again.
    SleepAndRetry(u32),
}

/// The transient condition that the adapter absorbs.
pub open spec fn is_transient(a: ReadAttempt) -> bool {
    a is WouldBlock
}

/// An outcome that closes the stream: zero bytes read.
pub open spec fn is_end_of_stream(a: ReadAttempt) -> bool {
    a matches ReadAttempt::Ready(b) && b@.len() == 0
}

/// The step taken on an outcome under a strategy.
pub open spec fn step_of(strategy: ReadStrategy, a: ReadAttempt) -> ReadStep {
    if strategy is PollAndSleep && is_transient(a) {
        ReadStep::SleepAndRetry(COOPERATIVE_SLEEP_MS)
    } else {
        ReadStep::Deliver(a)
    }
}

/// Decides what to do with the outcome of a read attempt.
pub fn next_step(strategy: ReadStrategy, attempt: ReadAttempt) -> (r: ReadStep)
    ensures
        r == step_of(strategy, attempt),
        strategy is PollAndSleep ==> (r matches ReadStep::Deliver(a) ==> !is_transient(a)),
        !is_transient(attempt) ==> r == ReadStep::Deliver(attempt),
{
    match strategy {
        ReadStrategy::PollAndSleep => match attempt {
            ReadAttempt::WouldBlock => ReadStep::SleepAndRetry(COOPERATIVE_SLEEP_MS),
            other => ReadStep::Deliver(other),
        },
        ReadStrategy::NativeWait => ReadStep::Deliver(attempt),
    }
}

/// The outcomes that reach the caller when the stream produces `attempts`
/// in this order, every retry answered by a new attempt.
pub open spec fn delivered(strategy: ReadStrategy, attempts: Seq<ReadAttempt>) -> Seq<ReadAttempt>
    decreases attempts.len(),
{
    if attempts.len() == 0 {
        Seq::empty()
    } else {
        let rest = delivered(strategy, attempts.drop_last());
        match step_of(strategy, attempts.last()) {
            ReadStep::Deliver(a) => rest.push(a),
            ReadStep::SleepAndRetry(_) => rest,
        }
    }
}

/// The bytes carried by a run of outcomes, in order.
pub open spec fn bytes_of(attempts: Seq<ReadAttempt>) -> Seq<u8>
    decreases attempts.len(),
{
    if attempts.len() == 0 {
        Seq::empty()
    } else {
        let rest = bytes_of(attempts.drop_last());
        match attempts.last() {
            ReadAttempt::Ready(b) => rest + b@,
            _ => rest,
        }
    }
}

/// The number of sleeps taken while the stream produces `attempts`.
pub open spec fn sleeps(strategy: ReadStrategy, attempts: Seq<ReadAttempt>) -> nat
    decreases attempts.len(),
{
    if attempts.len() == 0 {
        0
    } else {
        let rest = sleeps(strategy, attempts.drop_last());
        match step_of(strategy, attempts.last()) {
            ReadStep::Deliver(_) => rest,
            ReadStep::SleepAndRetry(_) => rest + 1,
        }
    }
}

/// Whatever the stream produces, with any number of "would block" answers
/// among its outcomes, the caller of a polling adapter receives exactly the
/// same bytes in the same order, and never a "would block".
pub proof fn lemma_bytes_survive_retries(attempts: Seq<ReadAttempt>)
    ensures
        bytes_of(delivered(ReadStrategy::PollAndSleep, attempts)) == bytes_of(attempts),
        forall|i: int|
            0 <= i < delivered(ReadStrategy::PollAndSleep, attempts).len() ==> !is_transient(
                #[trigger] delivered(ReadStrategy::PollAndSleep, attempts)[i],
            ),
    decreases attempts.len(),
{
    if attempts.len() > 0 {
        lemma_bytes_survive_retries(attempts.drop_last());
        let rest = delivered(ReadStrategy::PollAndSleep, attempts.drop_last());
        let d = delivered(ReadStrategy::PollAndSleep, attempts);
        if !is_transient(attempts.last()) {
            assert(d == rest.push(attempts.last()));
            assert(d.drop_last() == rest);
        }
    }
}

/// Under a polling adapter the caller sees every outcome of the stream but
/// the "would block" answers, in order, and the adapter sleeps once for each
/// of those answers.
pub proof fn lemma_delivered_skips_only_transient(attempts: Seq<ReadAttempt>)
    ensures
        delivered(ReadStrategy::PollAndSleep, attempts) == attempts.filter(
            |a: ReadAttempt| !is_transient(a),
        ),
        delivered(ReadStrategy::PollAndSleep, attempts).len() + sleeps(
            ReadStrategy::PollAndSleep,
            attempts,
        ) == attempts.len(),
    decreases attempts.len(),
{
    reveal(Seq::filter);
    if attempts.len() > 0 {
        lemma_delivered_skips_only_transient(attempts.drop_last());
    }
}

/// End of stream reaches the caller at the first attempt that reports it,
/// under either strategy, with no sleep before it.
pub proof fn lemma_end_of_stream_delivered_at_once(strategy: ReadStrategy, a: ReadAttempt)
    requires
        is_end_of_stream(a),
    ensures
        step_of(strategy, a) == ReadStep::Deliver(a),
        delivered(strategy, seq![a]) == seq![a],
        sleeps(strategy, seq![a]) == 0,
{
    let none = Seq::<ReadAttempt>::empty();
    assert(seq![a].drop_last() == none);
    assert(seq![a].last() == a);
    assert(delivered(strategy, none) == none);
    assert(sleeps(strategy, none) == 0);
    assert(none.push(a) == seq![a]);
}

/// A native-wait adapter hands on every outcome unchanged and never sleeps.
pub proof fn lemma_native_wait_is_transparent(attempts: Seq<ReadAttempt>)
    ensures
        delivered(ReadStrategy::NativeWait, attempts) == attempts,
        sleeps(ReadStrategy::NativeWait, attempts) == 0,
    decreases attempts.len(),
{
    if attempts.len() > 0 {
        lemma_native_wait_is_transparent(attempts.drop_last());
        assert(attempts.drop_last().push(attempts.last()) == attempts);
    }
}

} // verus!
