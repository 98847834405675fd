//! Datagram-path tests: frame atomicity and the burst read's early stop.

use mmwserial::datagram::{
    accept_frame, frame_result, CollectStep, FrameCollector, RecvEvent, UDPError,
};

#[test]
fn exact_frame_is_accepted() {
    let data = vec![7u8; 1024];
    let r = accept_frame(1024, data.clone());
    assert_eq!(r.unwrap(), data);
}

#[test]
fn short_datagram_is_incomplete_frame() {
    // A 1000-byte datagram against a 1024-byte frame size is a framing
    // mismatch, never a padded or truncated result.
    let r = accept_frame(1024, vec![7u8; 1000]);
    match r {
        Err(UDPError::IncompleteFrame { expected, received }) => {
            assert_eq!(expected, 1024);
            assert_eq!(received, 1000);
        }
        _ => panic!("expected an incomplete-frame error"),
    }
}

#[test]
fn oversized_datagram_is_incomplete_frame() {
    let r = accept_frame(8, vec![1u8; 9]);
    assert!(matches!(
        r,
        Err(UDPError::IncompleteFrame { expected: 8, received: 9 })
    ));
}

#[test]
fn timeout_maps_to_timeout_error() {
    let r = frame_result(16, RecvEvent::TimedOut);
    assert!(matches!(r, Err(UDPError::Timeout)));
}

#[test]
fn socket_failure_keeps_its_message() {
    let r = frame_result(16, RecvEvent::Failed(String::from("device gone")));
    match r {
        Err(UDPError::SocketError(m)) => assert_eq!(m, "device gone"),
        _ => panic!("expected a socket error"),
    }
}

#[test]
fn burst_stops_early_on_timeout() {
    // Asking for five frames where the third receive times out yields
    // exactly the two frames already collected, and no error.
    let mut c = FrameCollector::new(1024, 5);
    assert!(c.need_more());
    let s1 = c.on_event(RecvEvent::Data(vec![1u8; 1024]));
    assert!(matches!(s1, CollectStep::Recv));
    let s2 = c.on_event(RecvEvent::Data(vec![2u8; 1024]));
    assert!(matches!(s2, CollectStep::Recv));
    let s3 = c.on_event(RecvEvent::TimedOut);
    assert!(matches!(s3, CollectStep::Finished));
    let frames = c.into_frames();
    assert_eq!(frames.len(), 2);
    assert_eq!(frames[0], vec![1u8; 1024]);
    assert_eq!(frames[1], vec![2u8; 1024]);
}

#[test]
fn burst_finishes_when_full() {
    let mut c = FrameCollector::new(4, 2);
    assert!(matches!(
        c.on_event(RecvEvent::Data(vec![0u8; 4])),
        CollectStep::Recv
    ));
    assert!(matches!(
        c.on_event(RecvEvent::Data(vec![0u8; 4])),
        CollectStep::Finished
    ));
    assert_eq!(c.into_frames().len(), 2);
}

#[test]
fn burst_fails_fast_on_bad_frame() {
    // A size mismatch is not a timeout: it fails the whole burst at once.
    let mut c = FrameCollector::new(1024, 5);
    let s = c.on_event(RecvEvent::Data(vec![0u8; 512]));
    match s {
        CollectStep::Fail(UDPError::IncompleteFrame { expected, received }) => {
            assert_eq!(expected, 1024);
            assert_eq!(received, 512);
        }
        _ => panic!("expected the burst to fail"),
    }
    assert_eq!(c.into_frames().len(), 0);
}

#[test]
fn burst_propagates_socket_failure() {
    let mut c = FrameCollector::new(1024, 5);
    let s = c.on_event(RecvEvent::Failed(String::from("unreachable")));
    assert!(matches!(s, CollectStep::Fail(UDPError::SocketError(_))));
}
