use socket_server::socket::addr::{Ipv4Addr, SockAddrIn};
use socket_server::socket::errors::{ErrorKind, OsError, SocketError};
use socket_server::socket::utils::{
    accept_connection, bind_socket, create_socket, distributed_option, listen_socket,
    nonblocking_flags, set_nonblocking, CallReturn, SocketOption, DISTRIBUTED_OPTION_COUNT,
};

fn ok(ret: i32) -> CallReturn {
    CallReturn { ret, error: OsError { code: None, kind: ErrorKind::Other } }
}

fn failed(code: i32) -> CallReturn {
    CallReturn { ret: -1, error: OsError { code: Some(code), kind: ErrorKind::Other } }
}

#[test]
fn create_socket_result() {
    assert_eq!(create_socket(ok(3)), Ok(3));
    assert_eq!(create_socket(ok(0)), Ok(0));
    let e = failed(24);
    assert_eq!(create_socket(e), Err(SocketError::Create(e.error)));
}

#[test]
fn bind_and_listen_results() {
    assert_eq!(bind_socket(ok(0)), Ok(()));
    let e = failed(98);
    assert_eq!(bind_socket(e), Err(SocketError::Bind(e.error)));
    assert_eq!(listen_socket(ok(0)), Ok(()));
    assert_eq!(listen_socket(e), Err(SocketError::Listen(e.error)));
}

#[test]
fn nonblocking_results() {
    assert_eq!(nonblocking_flags(ok(0x2), 0x800), Ok(0x802));
    assert_eq!(nonblocking_flags(ok(0x802), 0x800), Ok(0x802));
    let e = failed(9);
    assert_eq!(nonblocking_flags(e, 0x800), Err(e.error));
    assert_eq!(set_nonblocking(ok(0)), Ok(()));
    assert_eq!(set_nonblocking(e), Err(e.error));
}

#[test]
fn accept_connection_results() {
    let peer = SockAddrIn::new(Ipv4Addr::new(172, 16, 0, 1), 1234);
    assert_eq!(accept_connection(ok(8), peer), Ok((8, peer)));
    let wb = CallReturn { ret: -1, error: OsError { code: Some(11), kind: ErrorKind::WouldBlock } };
    assert_eq!(accept_connection(wb, peer), Err(SocketError::WouldBlock));
    let e = failed(103);
    assert_eq!(accept_connection(e, peer), Err(SocketError::Accept(e.error)));
}

#[test]
fn option_table() {
    assert_eq!(DISTRIBUTED_OPTION_COUNT, 7);
    let options: Vec<SocketOption> = (0..DISTRIBUTED_OPTION_COUNT).map(distributed_option).collect();
    assert_eq!(
        options,
        vec![
            SocketOption::ReuseAddr(1),
            SocketOption::KeepAlive(1),
            SocketOption::NoDelay(1),
            SocketOption::RecvBuffer(128 * 1024),
            SocketOption::SendBuffer(128 * 1024),
            SocketOption::Linger { on: 1, seconds: 5 },
            SocketOption::Broadcast(1),
        ]
    );
}
