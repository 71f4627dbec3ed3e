use rune_languageserver::input::{next_step, ReadAttempt, ReadStep, ReadStrategy, COOPERATIVE_SLEEP_MS};

/// Runs one read of the adapter against scripted outcomes of the stream;
/// returns what the caller receives and how many sleeps were taken.
fn read_once(
    strategy: ReadStrategy,
    script: &mut std::collections::VecDeque<ReadAttempt>,
) -> (ReadAttempt, usize) {
    let mut slept = 0;
    loop {
        let attempt = script.pop_front().expect("script ran out");
        match next_step(strategy, attempt) {
            ReadStep::Deliver(a) => return (a, slept),
            ReadStep::SleepAndRetry(ms) => {
                assert_eq!(ms, COOPERATIVE_SLEEP_MS);
                slept += 1;
            }
        }
    }
}

#[test]
fn three_would_blocks_then_bytes() {
    let mut script = std::collections::VecDeque::from(vec![
        ReadAttempt::WouldBlock,
        ReadAttempt::WouldBlock,
        ReadAttempt::WouldBlock,
        ReadAttempt::Ready(vec![0x41, 0x42]),
    ]);
    let (got, slept) = read_once(ReadStrategy::PollAndSleep, &mut script);
    assert_eq!(got, ReadAttempt::Ready(vec![0x41, 0x42]));
    assert_eq!(slept, 3);
    assert!(script.is_empty());
}

#[test]
fn end_of_stream_is_delivered_once_without_retry() {
    let mut script = std::collections::VecDeque::from(vec![
        ReadAttempt::Ready(vec![]),
        ReadAttempt::WouldBlock,
    ]);
    let (got, slept) = read_once(ReadStrategy::PollAndSleep, &mut script);
    assert_eq!(got, ReadAttempt::Ready(vec![]));
    assert_eq!(slept, 0);
    assert_eq!(script.len(), 1);
}

#[test]
fn bytes_survive_interleaved_would_blocks() {
    let mut script = std::collections::VecDeque::from(vec![
        ReadAttempt::Ready(vec![1, 2]),
        ReadAttempt::WouldBlock,
        ReadAttempt::Ready(vec![3]),
        ReadAttempt::WouldBlock,
        ReadAttempt::WouldBlock,
        ReadAttempt::Ready(vec![4, 5, 6]),
        ReadAttempt::Ready(vec![]),
    ]);
    let mut bytes = Vec::new();
    let mut sleeps = 0;
    loop {
        let (got, slept) = read_once(ReadStrategy::PollAndSleep, &mut script);
        sleeps += slept;
        match got {
            ReadAttempt::Ready(b) if b.is_empty() => break,
            ReadAttempt::Ready(b) => bytes.extend(b),
            other => panic!("unexpected outcome {:?}", other),
        }
    }
    assert_eq!(bytes, vec![1, 2, 3, 4, 5, 6]);
    assert_eq!(sleeps, 3);
}

#[test]
fn would_block_is_absorbed_when_polling() {
    assert_eq!(
        next_step(ReadStrategy::PollAndSleep, ReadAttempt::WouldBlock),
        ReadStep::SleepAndRetry(100)
    );
}

#[test]
fn lasting_error_is_handed_on() {
    assert_eq!(
        next_step(ReadStrategy::PollAndSleep, ReadAttempt::Failed),
        ReadStep::Deliver(ReadAttempt::Failed)
    );
}

#[test]
fn pending_is_handed_on() {
    assert_eq!(
        next_step(ReadStrategy::PollAndSleep, ReadAttempt::Pending),
        ReadStep::Deliver(ReadAttempt::Pending)
    );
}

#[test]
fn native_wait_hands_on_every_outcome() {
    assert_eq!(
        next_step(ReadStrategy::NativeWait, ReadAttempt::WouldBlock),
        ReadStep::Deliver(ReadAttempt::WouldBlock)
    );
    assert_eq!(
        next_step(ReadStrategy::NativeWait, ReadAttempt::Ready(vec![7])),
        ReadStep::Deliver(ReadAttempt::Ready(vec![7]))
    );
}
