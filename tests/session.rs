use sentinel_sniffer::frame::TransportProtocol;
use sentinel_sniffer::session::{CaptureSession, NextStep, ReadOutcome};

fn frame(ether: [u8; 2], protocol: u8, last: u8) -> Vec<u8> {
    let mut f = vec![0u8; 12];
    f.extend_from_slice(&ether);
    f.extend_from_slice(&[0x45, 0, 0, 20, 0, 0, 0, 0, 64, protocol, 0, 0]);
    f.extend_from_slice(&[10, 0, 0, last]);
    f.extend_from_slice(&[10, 0, 0, 1]);
    f
}

#[test]
fn session_zero_count_is_complete_at_once() {
    let s = CaptureSession::new(0);
    assert!(s.is_complete());
    assert_eq!(s.finish().unwrap().len(), 0);
}

#[test]
fn session_collects_exactly_count_in_order() {
    let mut s = CaptureSession::new(2);
    let arp = frame([0x08, 0x06], 6, 2);
    let tcp = frame([0x08, 0x00], 6, 3);
    let short = vec![0u8; 10];
    let udp = frame([0x08, 0x00], 17, 4);
    let late = frame([0x08, 0x00], 1, 5);
    assert_eq!(s.on_read(ReadOutcome::Frame(&arp)), NextStep::ReadAgain);
    assert_eq!(s.on_read(ReadOutcome::TransientError), NextStep::ReadAgain);
    assert_eq!(s.on_read(ReadOutcome::Frame(&tcp)), NextStep::ReadAgain);
    assert_eq!(s.on_read(ReadOutcome::Frame(&short)), NextStep::ReadAgain);
    assert!(!s.is_complete());
    assert_eq!(s.on_read(ReadOutcome::Frame(&udp)), NextStep::Finished);
    assert!(s.is_complete());
    assert_eq!(s.on_read(ReadOutcome::Frame(&late)), NextStep::Finished);
    let records = s.finish().unwrap();
    assert_eq!(records.len(), 2);
    assert_eq!(records[0].protocol, TransportProtocol::Tcp);
    assert_eq!(records[0].source_ip, "10.0.0.3");
    assert_eq!(records[1].protocol, TransportProtocol::Udp);
    assert_eq!(records[1].source_ip, "10.0.0.4");
    assert_eq!(records[1].size_bytes, 34);
}

#[test]
fn session_incomplete_finish_gives_none() {
    let mut s = CaptureSession::new(3);
    let tcp = frame([0x08, 0x00], 6, 7);
    s.on_read(ReadOutcome::Frame(&tcp));
    assert!(s.finish().is_none());
}

#[test]
fn session_transient_errors_never_end_it() {
    let mut s = CaptureSession::new(1);
    for _ in 0..1000 {
        assert_eq!(s.on_read(ReadOutcome::TransientError), NextStep::ReadAgain);
    }
    assert!(!s.is_complete());
}
