use spinploy::log_bridge::{
    bridge_start, bridge_step, BridgeAction, BridgeEvent, BridgeState, LogItem,
    LOG_QUEUE_CAPACITY,
};

/// A source of lines that counts how often it is read.
struct Source {
    lines: Vec<Result<String, String>>,
    reads: usize,
}

/// A reader that takes a number of items and then goes away.
struct Reader {
    patience: usize,
    taken: Vec<LogItem>,
}

/// Drives the producer as its caller would: every action is performed and
/// what came of it is reported back.
fn run(source: &mut Source, reader: &mut Reader) -> BridgeState {
    let (mut state, mut action) = bridge_start();
    let mut steps = 0;
    loop {
        steps += 1;
        assert!(steps < 10_000);
        let event = match action {
            BridgeAction::Read => {
                let at = source.reads;
                source.reads += 1;
                match source.lines.get(at) {
                    Some(Ok(line)) => BridgeEvent::Line(line.clone()),
                    Some(Err(error)) => BridgeEvent::SourceError(error.clone()),
                    None => BridgeEvent::SourceEnded,
                }
            }
            BridgeAction::Send(item) => {
                if reader.taken.len() < reader.patience {
                    reader.taken.push(item);
                    BridgeEvent::Sent
                } else {
                    BridgeEvent::ReaderGone
                }
            }
            BridgeAction::Stop => return state,
        };
        let next = bridge_step(state, event);
        state = next.0;
        action = next.1;
    }
}

fn lines(n: usize) -> Vec<Result<String, String>> {
    (0..n).map(|i| Ok(format!("line {}", i))).collect()
}

#[test]
fn the_producer_begins_by_reading() {
    assert_eq!(bridge_start(), (BridgeState::Reading, BridgeAction::Read));
    assert_eq!(LOG_QUEUE_CAPACITY, 100);
}

#[test]
fn a_line_is_sent_and_the_next_is_read() {
    assert_eq!(
        bridge_step(BridgeState::Reading, BridgeEvent::Line("hello".to_string())),
        (BridgeState::Sending, BridgeAction::Send(LogItem::Line("hello".to_string())))
    );
    assert_eq!(
        bridge_step(BridgeState::Sending, BridgeEvent::Sent),
        (BridgeState::Reading, BridgeAction::Read)
    );
}

#[test]
fn an_error_of_the_source_is_sent_in_place_of_a_line() {
    assert_eq!(
        bridge_step(BridgeState::Reading, BridgeEvent::SourceError("broken pipe".to_string())),
        (
            BridgeState::Sending,
            BridgeAction::Send(LogItem::Error("Log stream error: broken pipe".to_string()))
        )
    );
}

#[test]
fn the_end_of_the_source_stops_the_producer() {
    assert_eq!(
        bridge_step(BridgeState::Reading, BridgeEvent::SourceEnded),
        (BridgeState::Stopped, BridgeAction::Stop)
    );
}

#[test]
fn a_reader_that_is_gone_stops_the_producer() {
    assert_eq!(
        bridge_step(BridgeState::Sending, BridgeEvent::ReaderGone),
        (BridgeState::Stopped, BridgeAction::Stop)
    );
    assert_eq!(
        bridge_step(BridgeState::Reading, BridgeEvent::ReaderGone),
        (BridgeState::Stopped, BridgeAction::Stop)
    );
}

#[test]
fn a_stopped_producer_stays_stopped() {
    let events = vec![
        BridgeEvent::Line("x".to_string()),
        BridgeEvent::SourceError("e".to_string()),
        BridgeEvent::SourceEnded,
        BridgeEvent::Sent,
        BridgeEvent::ReaderGone,
    ];
    for event in events {
        assert_eq!(
            bridge_step(BridgeState::Stopped, event),
            (BridgeState::Stopped, BridgeAction::Stop)
        );
    }
}

#[test]
fn events_out_of_turn_stop_the_producer() {
    assert_eq!(
        bridge_step(BridgeState::Reading, BridgeEvent::Sent),
        (BridgeState::Stopped, BridgeAction::Stop)
    );
    assert_eq!(
        bridge_step(BridgeState::Sending, BridgeEvent::Line("x".to_string())),
        (BridgeState::Stopped, BridgeAction::Stop)
    );
    assert_eq!(
        bridge_step(BridgeState::Sending, BridgeEvent::SourceEnded),
        (BridgeState::Stopped, BridgeAction::Stop)
    );
}

#[test]
fn a_finite_source_is_handed_over_whole() {
    let mut source = Source { lines: lines(5), reads: 0 };
    let mut reader = Reader { patience: 100, taken: vec![] };
    assert_eq!(run(&mut source, &mut reader), BridgeState::Stopped);
    assert_eq!(reader.taken.len(), 5);
    assert_eq!(reader.taken[4], LogItem::Line("line 4".to_string()));
    assert_eq!(source.reads, 6);
}

#[test]
fn errors_travel_with_the_lines() {
    let mut source = Source {
        lines: vec![Ok("a".to_string()), Err("hiccup".to_string()), Ok("b".to_string())],
        reads: 0,
    };
    let mut reader = Reader { patience: 100, taken: vec![] };
    run(&mut source, &mut reader);
    assert_eq!(
        reader.taken,
        vec![
            LogItem::Line("a".to_string()),
            LogItem::Error("Log stream error: hiccup".to_string()),
            LogItem::Line("b".to_string())
        ]
    );
}

#[test]
fn reads_stop_once_the_reader_is_gone() {
    let mut source = Source { lines: lines(1000), reads: 0 };
    let mut reader = Reader { patience: 3, taken: vec![] };
    assert_eq!(run(&mut source, &mut reader), BridgeState::Stopped);
    assert_eq!(reader.taken.len(), 3);
    assert_eq!(source.reads, 4);
    let reads_at_stop = source.reads;
    let (state, action) = bridge_step(BridgeState::Stopped, BridgeEvent::Sent);
    assert_eq!((state, action), (BridgeState::Stopped, BridgeAction::Stop));
    assert_eq!(source.reads, reads_at_stop);
}

#[test]
fn a_reader_that_never_listens_costs_one_read() {
    let mut source = Source { lines: lines(1000), reads: 0 };
    let mut reader = Reader { patience: 0, taken: vec![] };
    run(&mut source, &mut reader);
    assert_eq!(source.reads, 1);
    assert_eq!(reader.taken.len(), 0);
}
