use iroha_network::client::{call_start, call_step, CallAction, CallEvent, CallPhase, Network};
use iroha_network::codec::Request;
use iroha_network::error::TransportError;
use iroha_network::BUFFER_SIZE;

fn written_call() -> CallPhase {
    let request = Request::new("/ping".to_string(), vec![]);
    let (phase, action) = call_start(&request);
    assert!(matches!(action, CallAction::Connect));
    assert_eq!(phase, CallPhase::Connecting(b"/ping\r\n".to_vec()));
    let (phase, action) = call_step(phase, CallEvent::Connected);
    assert!(matches!(action, CallAction::Write(ref f) if f == b"/ping\r\n"));
    let (phase, action) = call_step(phase, CallEvent::Written);
    assert!(matches!(action, CallAction::Read(BUFFER_SIZE)));
    phase
}

#[test]
fn network_keeps_its_address() {
    let client = Network::new("127.0.0.1:7878");
    assert_eq!(client.server_url(), "127.0.0.1:7878");
}

#[test]
fn call_returns_bytes_read() {
    let phase = written_call();
    assert_eq!(phase, CallPhase::Reading);
    let (phase, action) = call_step(phase, CallEvent::Read(b"pong".to_vec()));
    assert_eq!(phase, CallPhase::Closed);
    assert!(matches!(action, CallAction::Finish(Ok(ref r)) if r == b"pong"));
}

#[test]
fn oversized_response_is_truncated_to_window() {
    let phase = written_call();
    let big: Vec<u8> = (0..3000u32).map(|i| (i % 251) as u8).collect();
    let (phase, action) = call_step(phase, CallEvent::Read(big.clone()));
    assert_eq!(phase, CallPhase::Closed);
    match action {
        CallAction::Finish(Ok(r)) => {
            assert_eq!(r.len(), BUFFER_SIZE);
            assert_eq!(&r[..], &big[..BUFFER_SIZE]);
        }
        other => panic!("unexpected action {:?}", other),
    }
}

#[test]
fn empty_read_is_empty_response() {
    let phase = written_call();
    let (_, action) = call_step(phase, CallEvent::Read(vec![]));
    assert!(matches!(action, CallAction::Finish(Ok(ref r)) if r.is_empty()));
}

#[test]
fn connect_failure_is_reported() {
    let (phase, _) = call_start(&Request::new("/a".to_string(), vec![1]));
    let (phase, action) = call_step(phase, CallEvent::ConnectFailed("refused".to_string()));
    assert_eq!(phase, CallPhase::Closed);
    assert!(matches!(action, CallAction::Finish(Err(TransportError::ConnectFailed(ref m))) if m == "refused"));
    assert!(!phase.accepts(&CallEvent::Connected));
}

#[test]
fn write_failure_is_reported() {
    let (phase, _) = call_start(&Request::new("/a".to_string(), vec![1]));
    let (phase, _) = call_step(phase, CallEvent::Connected);
    let (phase, action) = call_step(phase, CallEvent::WriteFailed("reset".to_string()));
    assert_eq!(phase, CallPhase::Closed);
    assert!(matches!(action, CallAction::Finish(Err(TransportError::WriteFailed(_)))));
}

#[test]
fn read_failure_is_reported() {
    let phase = written_call();
    assert!(phase.accepts(&CallEvent::ReadFailed(String::new())));
    assert!(!phase.accepts(&CallEvent::Written));
    let (_, action) = call_step(phase, CallEvent::ReadFailed("timeout".to_string()));
    assert!(matches!(action, CallAction::Finish(Err(TransportError::ReadFailed(_)))));
}
