use socket_server::socket::addr::{Ipv4Addr, SockAddrIn};
use socket_server::socket::errors::{ErrorKind, OsError, SocketError};
use socket_server::socket::socket::{
    Platform, SetupAction, SetupPhase, Socket, SocketSetup, LISTEN_BACKLOG,
};
use socket_server::socket::utils::{CallReturn, SocketOption};

const NONBLOCK: i32 = 0o4000;

fn ok(ret: i32) -> CallReturn {
    CallReturn { ret, error: OsError { code: None, kind: ErrorKind::Other } }
}

fn failed(code: i32, kind: ErrorKind) -> CallReturn {
    CallReturn { ret: -1, error: OsError { code: Some(code), kind } }
}

fn start() -> (SocketSetup, SetupAction) {
    Socket::new(Ipv4Addr::new(127, 0, 0, 1), 3001, NONBLOCK, Platform::Linux)
}

/// Starts a setup and feeds it `results`; returns the setup and every action
/// it gave, the first one included.
fn run(results: &[CallReturn]) -> (SocketSetup, Vec<SetupAction>) {
    let (mut setup, first) = start();
    let mut actions = vec![first];
    for r in results {
        actions.push(setup.step(*r));
    }
    (setup, actions)
}

#[test]
fn setup_success_makes_calls_in_order() {
    let mut results = vec![ok(7)];
    for _ in 0..7 {
        results.push(ok(0));
    }
    results.push(ok(2)); // flags read while creating
    results.push(ok(0));
    results.push(ok(0)); // bind
    results.push(ok(0)); // listen
    results.push(ok(0x802)); // flags read after listening
    results.push(ok(0));
    let (setup, actions) = run(&results);
    let addr = SockAddrIn::new(Ipv4Addr::new(127, 0, 0, 1), 3001);
    let expected = vec![
        SetupAction::CreateSocket,
        SetupAction::SetOption { fd: 7, option: SocketOption::ReuseAddr(1) },
        SetupAction::SetOption { fd: 7, option: SocketOption::KeepAlive(1) },
        SetupAction::SetOption { fd: 7, option: SocketOption::NoDelay(1) },
        SetupAction::SetOption { fd: 7, option: SocketOption::RecvBuffer(131072) },
        SetupAction::SetOption { fd: 7, option: SocketOption::SendBuffer(131072) },
        SetupAction::SetOption { fd: 7, option: SocketOption::Linger { on: 1, seconds: 5 } },
        SetupAction::SetOption { fd: 7, option: SocketOption::Broadcast(1) },
        SetupAction::GetFlags { fd: 7 },
        SetupAction::SetFlags { fd: 7, flags: 2 | NONBLOCK },
        SetupAction::Bind { fd: 7, addr },
        SetupAction::Listen { fd: 7, backlog: 128 },
        SetupAction::GetFlags { fd: 7 },
        SetupAction::SetFlags { fd: 7, flags: 0x802 | NONBLOCK },
        SetupAction::Ready(Socket { sockfd: 7, addr }),
    ];
    assert_eq!(actions, expected);
    assert!(setup.is_finished());
    assert_eq!(LISTEN_BACKLOG, 128);
}

#[test]
fn setup_address_is_in_network_order() {
    let addr = SockAddrIn::new(Ipv4Addr::new(127, 0, 0, 1), 3001);
    assert_eq!(addr.port_hi, 0x0b);
    assert_eq!(addr.port_lo, 0xb9);
    assert_eq!(addr.ip(), Ipv4Addr::new(127, 0, 0, 1));
    assert_eq!(addr.port(), 3001);
}

#[test]
fn setup_create_failure_closes_nothing() {
    let (mut setup, _) = start();
    let err = failed(24, ErrorKind::Other);
    let action = setup.step(err);
    assert_eq!(action, SetupAction::Fail { close: None, error: SocketError::Create(err.error) });
    assert!(setup.is_finished());
}

#[test]
fn setup_option_failure_closes_socket() {
    let err = failed(92, ErrorKind::Other);
    let (setup, actions) = run(&[ok(5), ok(0), ok(0), err]);
    assert_eq!(
        actions.last().unwrap(),
        &SetupAction::Fail { close: Some(5), error: SocketError::SetOption(err.error) }
    );
    assert_eq!(setup.phase, SetupPhase::Finished);
}

#[test]
fn setup_first_nonblocking_failure_closes_socket() {
    let err = failed(9, ErrorKind::Other);
    let mut results = vec![ok(5)];
    for _ in 0..7 {
        results.push(ok(0));
    }
    results.push(ok(2));
    results.push(err);
    let (_, actions) = run(&results);
    assert_eq!(
        actions.last().unwrap(),
        &SetupAction::Fail { close: Some(5), error: SocketError::SetOption(err.error) }
    );
}

fn through_bind() -> Vec<CallReturn> {
    let mut results = vec![ok(5)];
    for _ in 0..7 {
        results.push(ok(0));
    }
    results.push(ok(2));
    results.push(ok(0));
    results
}

#[test]
fn setup_bind_failure_keeps_socket_open() {
    let err = failed(98, ErrorKind::Other);
    let mut results = through_bind();
    results.push(err);
    let (_, actions) = run(&results);
    assert_eq!(actions.last().unwrap(), &SetupAction::Fail { close: None, error: SocketError::Bind(err.error) });
}

#[test]
fn setup_listen_failure_keeps_socket_open() {
    let err = failed(98, ErrorKind::Other);
    let mut results = through_bind();
    results.push(ok(0));
    results.push(err);
    let (_, actions) = run(&results);
    assert_eq!(actions.last().unwrap(), &SetupAction::Fail { close: None, error: SocketError::Listen(err.error) });
}

#[test]
fn setup_late_nonblocking_failure_goes_through_from() {
    let mut results = through_bind();
    results.push(ok(0));
    results.push(ok(0));
    let mut other = results.clone();
    let err = failed(9, ErrorKind::Other);
    other.push(err);
    let (_, actions) = run(&other);
    assert_eq!(actions.last().unwrap(), &SetupAction::Fail { close: None, error: SocketError::Create(err.error) });
    let mut blocked = results.clone();
    blocked.push(ok(2));
    blocked.push(failed(11, ErrorKind::WouldBlock));
    let (_, actions) = run(&blocked);
    assert_eq!(actions.last().unwrap(), &SetupAction::Fail { close: None, error: SocketError::WouldBlock });
}

#[test]
fn socket_accept_classifies_results() {
    let sock = Socket { sockfd: 3, addr: SockAddrIn::new(Ipv4Addr::new(0, 0, 0, 0), 80) };
    let peer = SockAddrIn::new(Ipv4Addr::new(10, 0, 0, 2), 51000);
    assert_eq!(sock.accept(ok(9), peer), Ok((9, peer)));
    assert_eq!(sock.accept(failed(11, ErrorKind::WouldBlock), peer), Err(SocketError::WouldBlock));
    let err = failed(24, ErrorKind::Other);
    assert_eq!(sock.accept(err, peer), Err(SocketError::Accept(err.error)));
    assert_eq!(sock.fd(), 3);
}

#[test]
fn socket_close_checks_zero() {
    let sock = Socket { sockfd: 3, addr: SockAddrIn::new(Ipv4Addr::new(0, 0, 0, 0), 80) };
    assert_eq!(sock.close(ok(0)), Ok(()));
    let err = failed(9, ErrorKind::Other);
    assert_eq!(sock.close(err), Err(err.error));
    assert_eq!(sock.close(ok(1)), Err(OsError { code: None, kind: ErrorKind::Other }));
}

#[test]
fn socket_error_from_os_error() {
    let wb = OsError { code: Some(11), kind: ErrorKind::WouldBlock };
    assert_eq!(SocketError::from(wb), SocketError::WouldBlock);
    let other = OsError { code: Some(13), kind: ErrorKind::Other };
    assert_eq!(SocketError::from(other), SocketError::Create(other));
}

#[test]
fn setup_on_macos_is_ready_after_listen() {
    let (mut setup, first) = Socket::new(Ipv4Addr::new(127, 0, 0, 1), 3001, NONBLOCK, Platform::MacOs);
    let mut actions = vec![first];
    let mut results = vec![ok(7)];
    for _ in 0..7 {
        results.push(ok(0));
    }
    results.push(ok(2));
    results.push(ok(0));
    results.push(ok(0)); // bind
    results.push(ok(0)); // listen
    for r in &results {
        actions.push(setup.step(*r));
    }
    let addr = SockAddrIn::new(Ipv4Addr::new(127, 0, 0, 1), 3001);
    assert_eq!(actions[11], SetupAction::Listen { fd: 7, backlog: 128 });
    assert_eq!(actions[12], SetupAction::Ready(Socket { sockfd: 7, addr }));
    assert_eq!(actions.len(), 13);
    assert!(setup.is_finished());
}
