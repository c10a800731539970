use terminal_manager::streamer::{
    OutputStreamer, PtyExit, PtyOutput, StreamEvent, StreamStep, CHUNK_SIZE,
};

/// Feeds `chunks`, then a read of length zero, to a wired streamer, and
/// returns the events in order.
fn stream(id: &str, chunks: &[&[u8]]) -> Vec<StreamEvent> {
    let mut streamer = OutputStreamer::new(id.to_string(), true);
    let mut events = Vec::new();
    for chunk in chunks {
        let mut buffer = vec![0u8; CHUNK_SIZE];
        buffer[..chunk.len()].copy_from_slice(chunk);
        let step = streamer.on_read(Ok(chunk.len()), &buffer);
        assert!(!step.finished);
        events.extend(step.event);
    }
    let step = streamer.on_read(Ok(0), &[0u8; 16]);
    assert!(step.finished);
    events.extend(step.event);
    events
}

fn output_bytes(events: &[StreamEvent]) -> Vec<u8> {
    let mut bytes = Vec::new();
    for event in events {
        if let StreamEvent::Output(output) = event {
            bytes.extend_from_slice(&output.data);
        }
    }
    bytes
}

#[test]
fn chunk_size_is_4096() {
    assert_eq!(CHUNK_SIZE, 4096);
}

#[test]
fn data_becomes_an_output_event_with_the_bytes_read() {
    let mut streamer = OutputStreamer::new("s1".to_string(), true);
    let step = streamer.on_read(Ok(3), b"abcdef");
    assert_eq!(
        step,
        StreamStep {
            event: Some(StreamEvent::Output(PtyOutput { id: "s1".into(), data: b"abc".to_vec() })),
            report: None,
            finished: false,
        }
    );
    assert!(!streamer.is_finished());
    let step = streamer.on_read(Ok(6), b"abcdef");
    assert_eq!(
        step.event,
        Some(StreamEvent::Output(PtyOutput { id: "s1".into(), data: b"abcdef".to_vec() }))
    );
}

#[test]
fn closed_stream_emits_exit_without_a_code_exactly_once() {
    let mut streamer = OutputStreamer::new("s1".to_string(), true);
    let step = streamer.on_read(Ok(0), b"stale");
    assert_eq!(
        step,
        StreamStep {
            event: Some(StreamEvent::Exit(PtyExit { id: "s1".into(), code: None })),
            report: None,
            finished: true,
        }
    );
    assert!(streamer.is_finished());
    for read in [Ok(0), Ok(3), Err("late".to_string())] {
        let step = streamer.on_read(read, b"abc");
        assert_eq!(step, StreamStep { event: None, report: None, finished: true });
    }
}

#[test]
fn failed_read_is_reported_and_emits_no_exit() {
    let mut streamer = OutputStreamer::new("s1".to_string(), true);
    streamer.on_read(Ok(1), b"a");
    let step = streamer.on_read(Err("Input/output error".to_string()), b"a");
    assert_eq!(
        step,
        StreamStep {
            event: None,
            report: Some("Read error for session s1: Input/output error".to_string()),
            finished: true,
        }
    );
    assert!(streamer.is_finished());
    let step = streamer.on_read(Ok(0), b"");
    assert_eq!(step, StreamStep { event: None, report: None, finished: true });
}

#[test]
fn unwired_streamer_drops_events_but_keeps_reading() {
    let mut streamer = OutputStreamer::new("s1".to_string(), false);
    let step = streamer.on_read(Ok(2), b"hi");
    assert_eq!(step, StreamStep { event: None, report: None, finished: false });
    let step = streamer.on_read(Ok(0), b"hi");
    assert_eq!(step, StreamStep { event: None, report: None, finished: true });

    let mut streamer = OutputStreamer::new("s2".to_string(), false);
    let step = streamer.on_read(Err("gone".to_string()), b"");
    assert_eq!(step.report, Some("Read error for session s2: gone".to_string()));
    assert!(step.finished);
}

#[test]
fn outputs_concatenate_to_what_was_read_whatever_the_chunks() {
    let whole = stream("s1", &[b"hello, world\n"]);
    let split = stream("s1", &[b"hel", b"lo, w", b"o", b"rld\n"]);
    assert_eq!(output_bytes(&whole), b"hello, world\n");
    assert_eq!(output_bytes(&split), b"hello, world\n");
    assert_eq!(whole.len(), 2);
    assert_eq!(split.len(), 5);
    assert_eq!(split.last(), Some(&StreamEvent::Exit(PtyExit { id: "s1".into(), code: None })));
    let exits = split.iter().filter(|e| matches!(e, StreamEvent::Exit(_))).count();
    assert_eq!(exits, 1);
}

#[test]
fn full_buffer_is_emitted_whole() {
    let mut streamer = OutputStreamer::new("s1".to_string(), true);
    let buffer = vec![7u8; CHUNK_SIZE];
    let step = streamer.on_read(Ok(CHUNK_SIZE), &buffer);
    match step.event {
        Some(StreamEvent::Output(output)) => assert_eq!(output.data, buffer),
        other => panic!("expected an output event, got {:?}", other),
    }
}

#[test]
fn events_go_out_under_their_channels() {
    let output = StreamEvent::Output(PtyOutput { id: "s1".into(), data: vec![1] });
    let exit = StreamEvent::Exit(PtyExit { id: "s1".into(), code: None });
    assert_eq!(output.channel(), "pty-output");
    assert_eq!(exit.channel(), "pty-exit");
}
