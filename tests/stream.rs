use drone_stm32::stream::{NextStep, StreamPoll, StreamTrunkWait};

/// Runs one call to `next` against a scripted stream: the script gives the
/// answers to successive polls. Returns the result and the number of polls.
fn next_call(w: &mut StreamTrunkWait<Vec<StreamPoll<u32>>>) -> (Option<u32>, usize) {
    if !w.should_poll() {
        return (None, 0);
    }
    let mut polls = 0;
    loop {
        let answer = w.stream_mut().remove(0);
        polls += 1;
        match w.on_poll(answer) {
            NextStep::Wait => continue,
            NextStep::Yield(x) => return (Some(x), polls),
            NextStep::Done => return (None, polls),
        }
    }
}

#[test]
fn items_then_exhaustion_then_fused() {
    let script = vec![
        StreamPoll::Pending,
        StreamPoll::Item(1),
        StreamPoll::Item(2),
        StreamPoll::Pending,
        StreamPoll::Pending,
        StreamPoll::Exhausted,
        StreamPoll::Item(99),
    ];
    let mut w = StreamTrunkWait::new(script);
    assert_eq!(next_call(&mut w), (Some(1), 2));
    assert_eq!(next_call(&mut w), (Some(2), 1));
    assert_eq!(next_call(&mut w), (None, 3));
    assert_eq!(next_call(&mut w), (None, 0));
    assert_eq!(next_call(&mut w), (None, 0));
    assert_eq!(w.stream_mut().len(), 1);
}

#[test]
fn empty_stream_is_exhausted_at_once() {
    let mut w = StreamTrunkWait::new(vec![StreamPoll::Exhausted]);
    assert_eq!(next_call(&mut w), (None, 1));
    assert!(!w.should_poll());
}
