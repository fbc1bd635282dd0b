use std::collections::HashMap;
use socket_server::client::handler::{handle_read, handle_write, has_pending_output, register_client};
use socket_server::server::listener::{accept_clients, keep_client, AcceptProgress, SERVER_TOKEN};
use socket_server::server::serve::{serve_action, ServeAction, ACCEPT_RETRY_MILLIS};
use socket_server::socket::addr::{Ipv4Addr, SockAddrIn};
use socket_server::socket::errors::{ErrorKind, OsError, SocketError};

fn err(kind: ErrorKind) -> OsError {
    OsError { code: Some(if kind == ErrorKind::WouldBlock { 11 } else { 104 }), kind }
}

#[test]
fn register_client_takes_fresh_tokens() {
    let mut clients: HashMap<usize, (&str, Vec<u8>)> = HashMap::new();
    let mut next = 1usize;
    assert_eq!(register_client(&mut clients, "a", &mut next, Ok(())), Ok(()));
    assert_eq!(register_client(&mut clients, "b", &mut next, Ok(())), Ok(()));
    assert_eq!(next, 3);
    assert_eq!(clients.get(&1), Some(&("a", Vec::new())));
    assert_eq!(clients.get(&2), Some(&("b", Vec::new())));
    assert!(!clients.contains_key(&SERVER_TOKEN));
}

#[test]
fn register_client_failure_still_moves_counter() {
    let mut clients: HashMap<usize, (&str, Vec<u8>)> = HashMap::new();
    let mut next = 1usize;
    let e = err(ErrorKind::Other);
    assert_eq!(register_client(&mut clients, "a", &mut next, Err(e)), Err(e));
    assert_eq!(next, 2);
    assert!(clients.is_empty());
}

#[test]
fn handle_read_queues_hello() {
    let mut buffer = b"x".to_vec();
    assert!(handle_read(Ok(5), &mut buffer));
    assert_eq!(buffer, b"xServer Response: Hello!\n".to_vec());
    assert!(!handle_read(Ok(0), &mut buffer));
    assert!(!handle_read(Err(err(ErrorKind::Other)), &mut buffer));
    assert_eq!(buffer, b"xServer Response: Hello!\n".to_vec());
}

#[test]
fn handle_write_drains_front() {
    let mut buffer = b"abcdef".to_vec();
    assert!(has_pending_output(&buffer));
    assert!(handle_write(&mut buffer, Some(Ok(4))));
    assert_eq!(buffer, b"ef".to_vec());
    assert!(!handle_write(&mut buffer, Some(Err(err(ErrorKind::Other)))));
    assert_eq!(buffer, b"ef".to_vec());
    assert!(handle_write(&mut buffer, Some(Ok(2))));
    assert!(buffer.is_empty());
    assert!(!has_pending_output(&buffer));
    assert!(handle_write(&mut buffer, None));
}

#[test]
fn accept_clients_drains_queue() {
    let mut accepted = Vec::new();
    assert_eq!(accept_clients(&mut accepted, Ok(1)), AcceptProgress::More);
    assert_eq!(accept_clients(&mut accepted, Ok(2)), AcceptProgress::More);
    assert_eq!(accept_clients(&mut accepted, Err(err(ErrorKind::WouldBlock))), AcceptProgress::Drained);
    let e = err(ErrorKind::Other);
    assert_eq!(accept_clients(&mut accepted, Err(e)), AcceptProgress::Failed(e));
    assert_eq!(accepted, vec![1, 2]);
}

#[test]
fn serve_action_per_outcome() {
    let peer = SockAddrIn::new(Ipv4Addr::new(10, 0, 0, 9), 50123);
    assert_eq!(serve_action(Ok((6, peer))), ServeAction::Serve { fd: 6, client_addr: peer });
    assert_eq!(serve_action(Err(SocketError::WouldBlock)), ServeAction::Retry { millis: 100 });
    assert_eq!(ACCEPT_RETRY_MILLIS, 100);
    let e = SocketError::Accept(err(ErrorKind::Other));
    assert_eq!(serve_action(Err(e)), ServeAction::Report(e));
}

#[test]
fn sockaddr_round_trip() {
    for (ip, port) in [(Ipv4Addr::new(1, 2, 3, 4), 0u16), (Ipv4Addr::new(255, 0, 128, 9), 65535), (Ipv4Addr::new(127, 0, 0, 1), 256)] {
        let sa = SockAddrIn::new(ip, port);
        assert_eq!(sa.ip(), ip);
        assert_eq!(sa.port(), port);
        assert_eq!(SockAddrIn::new(sa.ip(), sa.port()), sa);
    }
}

#[test]
fn keep_client_unless_dropped() {
    assert!(keep_client(None, None));
    assert!(keep_client(Some(true), None));
    assert!(keep_client(Some(true), Some(true)));
    assert!(!keep_client(Some(false), Some(true)));
    assert!(!keep_client(None, Some(false)));
    assert!(!keep_client(Some(false), None));
}
