use cli_run::forward::{
    ForwardEvent, ForwardStep, Forwarder, StreamFault, StreamId, StreamIoError, CHUNK_SIZE,
};

/// Feeds `input` to a forwarder in reads of `read_size` bytes and returns
/// what it wrote, the number of writes, and the fault it ended with.
fn forward(input: &[u8], read_size: usize) -> (Vec<u8>, usize, Option<StreamFault>) {
    let mut forwarder = Forwarder::new(StreamId::Stdout);
    let mut written = Vec::new();
    let mut writes = 0;
    let mut at = 0;
    loop {
        match forwarder.step() {
            ForwardStep::Read(max) => {
                let n = read_size.min(max).min(input.len() - at);
                let chunk = input[at..at + n].to_vec();
                at += n;
                forwarder = forwarder.on_event(ForwardEvent::Chunk(chunk));
            }
            ForwardStep::Write(bytes) => {
                written.extend_from_slice(&bytes);
                writes += 1;
                forwarder = forwarder.on_event(ForwardEvent::Written);
            }
            ForwardStep::Finished(fault) => return (written, writes, fault),
        }
    }
}

#[test]
fn chunk_size_is_fixed() {
    assert_eq!(CHUNK_SIZE, 1024);
    match Forwarder::new(StreamId::Stderr).step() {
        ForwardStep::Read(max) => assert_eq!(max, 1024),
        other => panic!("unexpected step {:?}", other),
    }
}

#[test]
fn hello_is_forwarded_exactly() {
    let (written, writes, fault) = forward(b"hello\n", CHUNK_SIZE);
    assert_eq!(written, b"hello\n");
    assert_eq!(writes, 1);
    assert_eq!(fault, None);
}

#[test]
fn empty_stream_ends_without_a_write() {
    let (written, writes, fault) = forward(b"", CHUNK_SIZE);
    assert!(written.is_empty());
    assert_eq!(writes, 0);
    assert_eq!(fault, None);
}

#[test]
fn five_thousand_bytes_keep_their_order() {
    let marker = b"0123456789abcdef-MARK-";
    let input: Vec<u8> = (0..5000).map(|i| marker[i % marker.len()]).collect();
    let (written, writes, fault) = forward(&input, CHUNK_SIZE);
    assert_eq!(written, input);
    assert_eq!(writes, 5);
    assert_eq!(fault, None);
}

#[test]
fn short_reads_are_forwarded_as_they_come() {
    let input: Vec<u8> = (0..=255).collect();
    let (written, writes, fault) = forward(&input, 7);
    assert_eq!(written, input);
    assert_eq!(writes, 37);
    assert_eq!(fault, None);
}

#[test]
fn every_chunk_is_written_verbatim_before_the_next_read() {
    let forwarder = Forwarder::new(StreamId::Stdout);
    let forwarder = forwarder.on_event(ForwardEvent::Chunk(vec![1, 2, 3]));
    match forwarder.step() {
        ForwardStep::Write(bytes) => assert_eq!(bytes, vec![1, 2, 3]),
        other => panic!("unexpected step {:?}", other),
    }
    let forwarder = forwarder.on_event(ForwardEvent::Written);
    assert!(matches!(forwarder.step(), ForwardStep::Read(1024)));
}

#[test]
fn read_failure_ends_the_loop() {
    let forwarder = Forwarder::new(StreamId::Stderr);
    let forwarder = forwarder.on_event(ForwardEvent::ReadFailed);
    assert!(matches!(forwarder.step(), ForwardStep::Finished(Some(StreamFault::Read))));
    assert_eq!(
        forwarder.error(),
        Some(StreamIoError { stream: StreamId::Stderr, fault: StreamFault::Read })
    );
}

#[test]
fn write_failure_ends_the_loop() {
    let forwarder = Forwarder::new(StreamId::Stdout);
    let forwarder = forwarder.on_event(ForwardEvent::Chunk(vec![9]));
    let forwarder = forwarder.on_event(ForwardEvent::WriteFailed);
    assert!(matches!(forwarder.step(), ForwardStep::Finished(Some(StreamFault::Write))));
    assert_eq!(
        forwarder.error(),
        Some(StreamIoError { stream: StreamId::Stdout, fault: StreamFault::Write })
    );
}

#[test]
fn flush_failure_ends_the_loop() {
    let forwarder = Forwarder::new(StreamId::Stdout);
    let forwarder = forwarder.on_event(ForwardEvent::Chunk(vec![9]));
    let forwarder = forwarder.on_event(ForwardEvent::FlushFailed);
    assert!(matches!(forwarder.step(), ForwardStep::Finished(Some(StreamFault::Flush))));
}

#[test]
fn clean_end_reports_no_error() {
    let forwarder = Forwarder::new(StreamId::Stdout);
    assert_eq!(forwarder.error(), None);
    let forwarder = forwarder.on_event(ForwardEvent::Chunk(Vec::new()));
    assert!(matches!(forwarder.step(), ForwardStep::Finished(None)));
    assert_eq!(forwarder.error(), None);
}

#[test]
fn forwarder_ignores_events_that_answer_nothing() {
    let forwarder = Forwarder::new(StreamId::Stdout);
    let forwarder = forwarder.on_event(ForwardEvent::Written);
    let forwarder = forwarder.on_event(ForwardEvent::WriteFailed);
    let forwarder = forwarder.on_event(ForwardEvent::FlushFailed);
    assert!(matches!(forwarder.step(), ForwardStep::Read(1024)));
    let forwarder = forwarder.on_event(ForwardEvent::Chunk(vec![1]));
    let forwarder = forwarder.on_event(ForwardEvent::Chunk(vec![2]));
    let forwarder = forwarder.on_event(ForwardEvent::ReadFailed);
    match forwarder.step() {
        ForwardStep::Write(bytes) => assert_eq!(bytes, vec![1]),
        other => panic!("unexpected step {:?}", other),
    }
}

#[test]
fn a_finished_loop_stays_finished() {
    let forwarder = Forwarder::new(StreamId::Stdout);
    let forwarder = forwarder.on_event(ForwardEvent::ReadFailed);
    let forwarder = forwarder.on_event(ForwardEvent::Chunk(vec![1, 2]));
    let forwarder = forwarder.on_event(ForwardEvent::Written);
    assert!(matches!(forwarder.step(), ForwardStep::Finished(Some(StreamFault::Read))));
}

#[test]
fn forwarder_remembers_its_stream() {
    assert_eq!(Forwarder::new(StreamId::Stdout).stream(), StreamId::Stdout);
    assert_eq!(Forwarder::new(StreamId::Stderr).stream(), StreamId::Stderr);
}
