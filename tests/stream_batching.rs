use cflib::{PollAction, SourceEvent, StreamBatcher, CONSOLE_ITEM_TIMEOUT_MS, CONSOLE_MAX_BATCH};

/// Runs one poll against a source whose pending items are all ready at once and
/// which then stays silent until the wait times out.
fn poll(b: &mut StreamBatcher<u32>, source: &mut Vec<u32>) -> Vec<u32> {
    let mut action = b.begin_poll();
    loop {
        match action {
            PollAction::CreateSource => action = b.source_created(),
            PollAction::AwaitItem => {
                let event = if source.is_empty() { SourceEvent::Idle } else { SourceEvent::Item(source.remove(0)) };
                action = b.on_event(event);
            }
            PollAction::Deliver => return b.take_batch(),
        }
    }
}

#[test]
fn console_parameters() {
    assert_eq!(CONSOLE_MAX_BATCH, 100);
    assert_eq!(CONSOLE_ITEM_TIMEOUT_MS, 10);
}

#[test]
fn first_poll_of_250_ready_items_returns_100() {
    let mut b = StreamBatcher::new(CONSOLE_MAX_BATCH);
    let mut source: Vec<u32> = (0..250).collect();
    let batch = poll(&mut b, &mut source);
    assert_eq!(batch, (0..100).collect::<Vec<u32>>());
}

#[test]
fn source_stalling_after_three_items_gives_three() {
    let mut b = StreamBatcher::new(CONSOLE_MAX_BATCH);
    let mut source: Vec<u32> = vec![7, 8, 9];
    let batch = poll(&mut b, &mut source);
    assert_eq!(batch, vec![7, 8, 9]);
}

#[test]
fn timeout_ends_the_poll_at_once() {
    let mut b: StreamBatcher<u32> = StreamBatcher::new(CONSOLE_MAX_BATCH);
    assert_eq!(b.begin_poll(), PollAction::CreateSource);
    assert_eq!(b.source_created(), PollAction::AwaitItem);
    assert_eq!(b.on_event(SourceEvent::Item(1)), PollAction::AwaitItem);
    assert_eq!(b.on_event(SourceEvent::Idle), PollAction::Deliver);
    assert_eq!(b.take_batch(), vec![1]);
}

#[test]
fn stream_is_created_on_first_poll_only() {
    let mut b: StreamBatcher<u32> = StreamBatcher::new(CONSOLE_MAX_BATCH);
    assert!(!b.is_source_ready());
    let mut source = vec![];
    assert!(poll(&mut b, &mut source).is_empty());
    assert!(b.is_source_ready());
    assert_eq!(b.begin_poll(), PollAction::AwaitItem);
}

#[test]
fn batches_concatenate_to_arrival_order() {
    let mut b = StreamBatcher::new(CONSOLE_MAX_BATCH);
    let mut source: Vec<u32> = (0..250).collect();
    let mut all = Vec::new();
    let mut sizes = Vec::new();
    for _ in 0..4 {
        let batch = poll(&mut b, &mut source);
        sizes.push(batch.len());
        all.extend(batch);
    }
    assert_eq!(sizes, vec![100, 100, 50, 0]);
    assert_eq!(all, (0..250).collect::<Vec<u32>>());
}

#[test]
fn items_arriving_between_polls_are_kept() {
    let mut b = StreamBatcher::new(2);
    let mut source = vec![1u32, 2, 3];
    assert_eq!(poll(&mut b, &mut source), vec![1, 2]);
    source.push(4);
    assert_eq!(poll(&mut b, &mut source), vec![3, 4]);
    assert_eq!(poll(&mut b, &mut source), Vec::<u32>::new());
}

#[test]
fn zero_batch_bound_delivers_nothing() {
    let mut b = StreamBatcher::new(0);
    let mut source = vec![1u32];
    assert_eq!(poll(&mut b, &mut source), Vec::<u32>::new());
    assert_eq!(source, vec![1]);
}
