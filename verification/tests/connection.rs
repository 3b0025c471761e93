use flowsurface::stream::{ConnEvent, ConnStatus, Connection, StepOutcome};

#[test]
fn successful_handshake_connects_and_emits() {
    let mut conn = Connection::new(1_000);
    let out = conn.step(ConnEvent::HandshakeSucceeded, 50);
    assert_eq!(conn.status, ConnStatus::Connected);
    assert!(out.emit_connected);
    assert!(!out.emit_disconnected);
    assert_eq!(out.wait_ms, 0);
}

#[test]
fn failed_handshake_waits_out_the_backoff() {
    let mut conn = Connection::new(1_000);
    let out = conn.step(ConnEvent::HandshakeFailed, 50);
    assert_eq!(conn.status, ConnStatus::Disconnected);
    assert!(out.emit_disconnected);
    assert_eq!(out.wait_ms, 1_000);
    assert_eq!(conn.earliest_retry_ms, 1_050);
}

#[test]
fn transport_error_disconnects_and_emits() {
    let mut conn = Connection::new(1_000);
    conn.step(ConnEvent::HandshakeSucceeded, 10);
    let out = conn.step(ConnEvent::TransportError, 20);
    assert_eq!(conn.status, ConnStatus::Disconnected);
    assert!(out.emit_disconnected);
}

#[test]
fn close_frame_and_desync_disconnect() {
    for ev in [ConnEvent::CloseFrame, ConnEvent::ProtocolDesync] {
        let mut conn = Connection::new(500);
        conn.step(ConnEvent::HandshakeSucceeded, 10);
        let out = conn.step(ev, 20);
        assert_eq!(conn.status, ConnStatus::Disconnected);
        assert!(out.emit_disconnected);
    }
}

#[test]
fn consecutive_failures_are_spaced_by_backoff() {
    let mut conn = Connection::new(1_000);
    let mut emissions: Vec<u64> = Vec::new();
    let mut now: u64 = 0;
    for _ in 0..3 {
        // A retry may only happen once the backoff has elapsed.
        if now < conn.earliest_retry_ms {
            now = conn.earliest_retry_ms;
        }
        let out: StepOutcome = conn.step(ConnEvent::HandshakeFailed, now);
        assert!(out.emit_disconnected);
        emissions.push(now);
        now += 1;
    }
    for pair in emissions.windows(2) {
        assert!(pair[1] - pair[0] >= 1_000);
    }
}

#[test]
fn reconnection_never_gives_up() {
    let mut conn = Connection::new(100);
    let mut now: u64 = 0;
    for _ in 0..50 {
        if now < conn.earliest_retry_ms {
            now = conn.earliest_retry_ms;
        }
        conn.step(ConnEvent::HandshakeFailed, now);
        assert_eq!(conn.status, ConnStatus::Disconnected);
    }
    // After any number of failures a success still connects.
    if now < conn.earliest_retry_ms {
        now = conn.earliest_retry_ms;
    }
    conn.step(ConnEvent::HandshakeSucceeded, now);
    assert_eq!(conn.status, ConnStatus::Connected);
}
