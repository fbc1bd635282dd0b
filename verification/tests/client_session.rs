use socket_server::client::session::{
    ClientAction, ClientEvent, ClientSession, Notice, Phase, READ_CAPACITY, RETRY_DELAY_MILLIS,
};
use socket_server::socket::addr::{Ipv4Addr, SockAddrIn};
use socket_server::socket::errors::{ErrorKind, OsError};

fn no_error() -> OsError {
    OsError { code: None, kind: ErrorKind::Other }
}

fn session() -> ClientSession {
    let client = SockAddrIn::new(Ipv4Addr::new(192, 168, 0, 7), 40000);
    let (s, first) = ClientSession::new(4, client, Ipv4Addr::new(127, 0, 0, 1), 3001);
    assert_eq!(first, ClientAction::Read { fd: 4, capacity: 1024 });
    s
}

fn read_of(bytes: &[u8]) -> ClientEvent {
    let mut buffer = vec![0u8; READ_CAPACITY];
    buffer[..bytes.len()].copy_from_slice(bytes);
    ClientEvent::Read { ret: bytes.len() as isize, buffer, error: no_error() }
}

#[test]
fn session_echoes_utf8_message() {
    let mut s = session();
    let event = read_of(b"hello");
    assert!(s.accepts(&event));
    let step = s.step(event);
    assert_eq!(step.notice, None);
    assert_eq!(
        step.action,
        ClientAction::Write { fd: 4, bytes: b"Server 127.0.0.1:3001 - Received: hello".to_vec() }
    );
    assert_eq!(s.phase, Phase::Writing { message: b"hello".to_vec() });
    let step = s.step(ClientEvent::Wrote { ret: 39, error: no_error() });
    assert_eq!(step.notice, Some(Notice::Received(b"hello".to_vec())));
    assert_eq!(step.action, ClientAction::Read { fd: 4, capacity: 1024 });
    assert_eq!(s.phase, Phase::Reading);
}

#[test]
fn session_echoes_multibyte_utf8() {
    let mut s = session();
    let msg = "안녕".as_bytes();
    let step = s.step(read_of(msg));
    let mut expected = b"Server 127.0.0.1:3001 - Received: ".to_vec();
    expected.extend_from_slice(msg);
    assert_eq!(step.action, ClientAction::Write { fd: 4, bytes: expected });
}

#[test]
fn session_ignores_invalid_utf8() {
    let mut s = session();
    let step = s.step(read_of(&[0x66, 0xff, 0x6f]));
    assert_eq!(step.notice, Some(Notice::InvalidUtf8));
    assert_eq!(step.action, ClientAction::Read { fd: 4, capacity: 1024 });
    assert_eq!(s.phase, Phase::Reading);
    // a surrogate encoded in three bytes is not UTF-8 either
    let step = s.step(read_of(&[0xed, 0xa0, 0x80]));
    assert_eq!(step.notice, Some(Notice::InvalidUtf8));
}

#[test]
fn session_retries_after_would_block() {
    let mut s = session();
    let wb = OsError { code: Some(11), kind: ErrorKind::WouldBlock };
    let step = s.step(ClientEvent::Read { ret: -1, buffer: vec![0; READ_CAPACITY], error: wb });
    assert_eq!(step.notice, None);
    assert_eq!(step.action, ClientAction::Sleep { millis: 100 });
    assert_eq!(RETRY_DELAY_MILLIS, 100);
    assert!(s.accepts(&ClientEvent::Slept));
    let step = s.step(ClientEvent::Slept);
    assert_eq!(step.action, ClientAction::Read { fd: 4, capacity: 1024 });
    assert!(!s.is_closed());
}

#[test]
fn session_closes_on_disconnect() {
    let mut s = session();
    let step = s.step(read_of(b""));
    assert_eq!(step.notice, Some(Notice::Disconnected));
    assert_eq!(step.action, ClientAction::Close { fd: 4 });
    assert!(s.is_closed());
    assert!(!s.accepts(&ClientEvent::Slept));
    assert!(!s.accepts(&read_of(b"x")));
}

#[test]
fn session_closes_on_read_error() {
    let mut s = session();
    let err = OsError { code: Some(104), kind: ErrorKind::Other };
    let step = s.step(ClientEvent::Read { ret: -1, buffer: vec![0; READ_CAPACITY], error: err });
    assert_eq!(step.notice, Some(Notice::ReadError(err)));
    assert_eq!(step.action, ClientAction::Close { fd: 4 });
    assert!(s.is_closed());
}

#[test]
fn session_closes_on_write_error() {
    let mut s = session();
    s.step(read_of(b"hi"));
    let step = s.step(ClientEvent::Wrote { ret: -1, error: OsError { code: Some(32), kind: ErrorKind::Other } });
    assert_eq!(step.notice, Some(Notice::WriteError));
    assert_eq!(step.action, ClientAction::Close { fd: 4 });
    assert!(s.is_closed());
}

#[test]
fn session_rejects_events_out_of_turn() {
    let s = session();
    assert!(!s.accepts(&ClientEvent::Slept));
    assert!(!s.accepts(&ClientEvent::Wrote { ret: 0, error: no_error() }));
    assert!(!s.accepts(&ClientEvent::Read { ret: 5, buffer: vec![0; 4], error: no_error() }));
    assert!(s.accepts(&ClientEvent::Read { ret: 4, buffer: vec![0; 4], error: no_error() }));
}

#[test]
fn session_uses_only_the_bytes_read() {
    let mut s = session();
    let mut buffer = b"old data!!".to_vec();
    buffer.resize(READ_CAPACITY, b'z');
    let step = s.step(ClientEvent::Read { ret: 3, buffer, error: no_error() });
    assert_eq!(
        step.action,
        ClientAction::Write { fd: 4, bytes: b"Server 127.0.0.1:3001 - Received: old".to_vec() }
    );
}
