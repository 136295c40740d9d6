use pj::connection::ConnectionInfo;
use pj::relay::{RelayEngine, RelayStep};
use pj::DuplexEvent;

fn sample_info() -> ConnectionInfo {
    ConnectionInfo::new(7, "10.0.0.9:4242", "0.0.0.0:8787", "127.0.0.1:22", 3, 1000)
}

#[test]
fn test_duplex_event_downstream_read() {
    let event = DuplexEvent::DownstreamRead(100);
    match event {
        DuplexEvent::DownstreamRead(n) => assert_eq!(n, 100),
        _ => panic!("Wrong event type"),
    }
}

#[test]
fn test_duplex_event_upstream_read() {
    let event = DuplexEvent::UpstreamRead(200);
    match event {
        DuplexEvent::UpstreamRead(n) => assert_eq!(n, 200),
        _ => panic!("Wrong event type"),
    }
}

#[test]
fn test_duplex_event_sizes() {
    assert_eq!(std::mem::size_of::<DuplexEvent>(), 16);
}

#[test]
fn test_relay_echo_round_trip() {
    // A client writes 5 bytes, the echo backend sends the same 5 back, then
    // the client closes: both counters end equal and exactly one start line
    // and one end line come out, with matching connection ids.
    let mut engine = RelayEngine::new(sample_info());
    let start = engine.start();
    assert_eq!(
        start,
        "Conn #7 estab [3]: 10.0.0.9:4242 -> 0.0.0.0:8787 -> 127.0.0.1:22"
    );

    match engine.on_read(DuplexEvent::DownstreamRead(5)) {
        RelayStep::Forward { to_upstream, len } => {
            assert!(to_upstream);
            assert_eq!(len, 5);
        }
        RelayStep::Stop => panic!("a positive read must be forwarded"),
    }
    engine.on_forward_ok();

    match engine.on_read(DuplexEvent::UpstreamRead(5)) {
        RelayStep::Forward { to_upstream, len } => {
            assert!(!to_upstream);
            assert_eq!(len, 5);
        }
        RelayStep::Stop => panic!("a positive read must be forwarded"),
    }
    engine.on_forward_ok();

    match engine.on_read(DuplexEvent::DownstreamRead(0)) {
        RelayStep::Stop => {}
        RelayStep::Forward { .. } => panic!("EOF must stop the relay"),
    }

    assert_eq!(engine.stats.bytes_sent, 5);
    assert_eq!(engine.stats.bytes_received, 5);
    let end = engine.end_line(2, 3500);
    assert_eq!(
        end,
        "Conn #7 close [2]: Duration: 2.50s | Sent: 5 B | Received: 5 B"
    );
}

#[test]
fn test_relay_upstream_eof_stops() {
    let mut engine = RelayEngine::new(sample_info());
    let _ = engine.start();
    match engine.on_read(DuplexEvent::UpstreamRead(0)) {
        RelayStep::Stop => {}
        RelayStep::Forward { .. } => panic!("EOF must stop the relay"),
    }
    let end = engine.end_line(0, 1000);
    assert_eq!(end, "Conn #7 close [0]: Duration: 0.00s | Sent: 0 B | Received: 0 B");
}

#[test]
fn test_relay_read_error_is_logged() {
    let mut engine = RelayEngine::new(sample_info());
    let _ = engine.start();
    engine.on_read_error("Connection reset by peer".to_string());
    let end = engine.end_line(0, 2000);
    assert_eq!(
        end,
        "Conn #7 fail  [0]: Duration: 1.00s | Sent: 0 B | Received: 0 B | Error: Connection reset by peer"
    );
}

#[test]
fn test_relay_forward_error_keeps_counted_bytes() {
    // The chunk is counted when it is read; a failed write still reports it.
    let mut engine = RelayEngine::new(sample_info());
    let _ = engine.start();
    match engine.on_read(DuplexEvent::DownstreamRead(1024)) {
        RelayStep::Forward { to_upstream, len } => {
            assert!(to_upstream);
            assert_eq!(len, 1024);
        }
        RelayStep::Stop => panic!("a positive read must be forwarded"),
    }
    engine.on_forward_error("Broken pipe".to_string());
    assert_eq!(engine.stats.bytes_received, 1024);
    assert_eq!(engine.stats.bytes_sent, 0);
    let end = engine.end_line(5, 1500);
    assert_eq!(
        end,
        "Conn #7 fail  [5]: Duration: 0.50s | Sent: 0 B | Received: 1.0 KB | Error: Broken pipe"
    );
}

#[test]
fn test_relay_many_chunks_accumulate() {
    let mut engine = RelayEngine::new(sample_info());
    let _ = engine.start();
    for _ in 0..3 {
        match engine.on_read(DuplexEvent::DownstreamRead(1000)) {
            RelayStep::Forward { .. } => engine.on_forward_ok(),
            RelayStep::Stop => panic!("a positive read must be forwarded"),
        }
        match engine.on_read(DuplexEvent::UpstreamRead(400)) {
            RelayStep::Forward { .. } => engine.on_forward_ok(),
            RelayStep::Stop => panic!("a positive read must be forwarded"),
        }
    }
    match engine.on_read(DuplexEvent::UpstreamRead(0)) {
        RelayStep::Stop => {}
        RelayStep::Forward { .. } => panic!("EOF must stop the relay"),
    }
    assert_eq!(engine.stats.bytes_received, 3000);
    assert_eq!(engine.stats.bytes_sent, 1200);
}
