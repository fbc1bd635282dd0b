use vstd::prelude::*;
use crate::socket::addr::SockAddrIn;
use crate::socket::errors::{ErrorKind, OsError, SocketError};

verus! {

/// What a socket call returned: its return value, and the thread's last
/// operating-system error read right after the call, which counts only when
/// the value is negative.
#[derive(Debug, Clone, Copy, PartialEq, Eq, Structural)]
pub struct CallReturn {
    pub ret: i32,
    pub error: OsError,
}

/// A socket option that the server sets, with the value it sets it to.
#[derive(Debug, Clone, Copy, PartialEq, Eq, Structural)]
pub enum SocketOption {
    /// `SO_REUSEADDR` at level `SOL_SOCKET`.
    ReuseAddr(i32),
    /// `SO_KEEPALIVE` at level `SOL_SOCKET`.
    KeepAlive(i32),
    /// `TCP_NODELAY` at level `IPPROTO_TCP`.
    NoDelay(i32),
    /// `SO_RCVBUF` at level `SOL_SOCKET`, in bytes.
    RecvBuffer(i32),
    /// `SO_SNDBUF` at level `SOL_SOCKET`, in bytes.
    SendBuffer(i32),
    /// `SO_LINGER` at level `SOL_SOCKET`: whether lingering is on, and for
    /// how many seconds.
    Linger { on: i32, seconds: i32 },
    /// `SO_BROADCAST` at level `SOL_SOCKET`.
    Broadcast(i32),
}

/// How many options a new socket gets.
pub const DISTRIBUTED_OPTION_COUNT: usize = 7;

/// The options a new socket gets, in the order they are set: address reuse,
/// keep-alive and no-delay on, receive and send buffers of 128 KiB, linger
/// on for 5 seconds, broadcast on.
pub open spec fn distributed_options() -> Seq<SocketOption> {
    seq![
        SocketOption::ReuseAddr(1),
        SocketOption::KeepAlive(1),
        SocketOption::NoDelay(1),
        SocketOption::RecvBuffer(131072),
        SocketOption::SendBuffer(131072),
        SocketOption::Linger { on: 1, seconds: 5 },
        SocketOption::Broadcast(1),
    ]
}

/// The option a new socket gets in place `index` of the order.
pub fn distributed_option(index: usize) -> (option: SocketOption)
    requires
        index < DISTRIBUTED_OPTION_COUNT,
    ensures
        option == distributed_options()[index as int],
{
    match index {
        0 => SocketOption::ReuseAddr(1),
        1 => SocketOption::KeepAlive(1),
        2 => SocketOption::NoDelay(1),
        3 => SocketOption::RecvBuffer(128 * 1024),
        4 => SocketOption::SendBuffer(128 * 1024),
        5 => SocketOption::Linger { on: 1, seconds: 5 },
        _ => SocketOption::Broadcast(1),
    }
}

/// A new socket gets seven options, each once: address reuse, keep-alive,
/// no-delay and broadcast switched on, receive and send buffers of 128 KiB,
/// and lingering on close switched on for 5 seconds; and the option set in
/// each place of the order is the one the table lists there.
pub proof fn lemma_option_values()
    ensures
        distributed_options().len() == DISTRIBUTED_OPTION_COUNT,
        distributed_options().contains(SocketOption::ReuseAddr(1)),
        distributed_options().contains(SocketOption::KeepAlive(1)),
        distributed_options().contains(SocketOption::NoDelay(1)),
        distributed_options().contains(SocketOption::Broadcast(1)),
        distributed_options().contains(SocketOption::RecvBuffer((128 * 1024) as i32)),
        distributed_options().contains(SocketOption::SendBuffer((128 * 1024) as i32)),
        distributed_options().contains(SocketOption::Linger { on: 1, seconds: 5 }),
        forall|i: int, j: int|
            0 <= i < j < 7 ==> distributed_options()[i] != distributed_options()[j],
{
    let o = distributed_options();
    assert(o[0] == SocketOption::ReuseAddr(1));
    assert(o[1] == SocketOption::KeepAlive(1));
    assert(o[2] == SocketOption::NoDelay(1));
    assert(o[3] == SocketOption::RecvBuffer((128 * 1024) as i32));
    assert(o[4] == SocketOption::SendBuffer((128 * 1024) as i32));
    assert(o[5] == SocketOption::Linger { on: 1, seconds: 5 });
    assert(o[6] == SocketOption::Broadcast(1));
}

/// What creating the socket came to: the new descriptor, or for a negative
/// return a creation failure with the call's error.
pub fn create_socket(result: CallReturn) -> (r: Result<i32, SocketError>)
    ensures
        r == (if result.ret < 0 {
            Err(SocketError::Create(result.error))
        } else {
            Ok::<i32, SocketError>(result.ret)
        }),
{
    if result.ret < 0 {
        Err(SocketError::Create(result.error))
    } else {
        Ok(result.ret)
    }
}

/// The status flags to write to make a descriptor non-blocking, from what
/// reading its flags returned: the flags read with `nonblock_flag` added, or
/// for a negative return the read's error.
pub fn nonblocking_flags(read: CallReturn, nonblock_flag: i32) -> (r: Result<i32, OsError>)
    ensures
        r == (if read.ret < 0 {
            Err(read.error)
        } else {
            Ok::<i32, OsError>(read.ret | nonblock_flag)
        }),
{
    if read.ret < 0 {
        Err(read.error)
    } else {
        Ok(read.ret | nonblock_flag)
    }
}

/// What making a descriptor non-blocking came to, from what writing its
/// status flags returned: a negative return is a failure with the call's
/// error.
pub fn set_nonblocking(write: CallReturn) -> (r: Result<(), OsError>)
    ensures
        r == (if write.ret < 0 {
            Err(write.error)
        } else {
            Ok::<(), OsError>(())
        }),
{
    if write.ret < 0 {
        Err(write.error)
    } else {
        Ok(())
    }
}

/// What binding the socket to its address came to: a negative return is a
/// bind failure with the call's error.
pub fn bind_socket(result: CallReturn) -> (r: Result<(), SocketError>)
    ensures
        r == (if result.ret < 0 {
            Err(SocketError::Bind(result.error))
        } else {
            Ok::<(), SocketError>(())
        }),
{
    if result.ret < 0 {
        Err(SocketError::Bind(result.error))
    } else {
        Ok(())
    }
}

/// What making the socket listen came to: a negative return is a listen
/// failure with the call's error.
pub fn listen_socket(result: CallReturn) -> (r: Result<(), SocketError>)
    ensures
        r == (if result.ret < 0 {
            Err(SocketError::Listen(result.error))
        } else {
            Ok::<(), SocketError>(())
        }),
{
    if result.ret < 0 {
        Err(SocketError::Listen(result.error))
    } else {
        Ok(())
    }
}

/// The outcome of accepting a connection, from what the accept call
/// returned and the peer's address it filled in.
pub open spec fn accept_outcome(result: CallReturn, client_addr: SockAddrIn) -> Result<
    (i32, SockAddrIn),
    SocketError,
> {
    if result.ret < 0 {
        if result.error.kind == ErrorKind::WouldBlock {
            Err(SocketError::WouldBlock)
        } else {
            Err(SocketError::Accept(result.error))
        }
    } else {
        Ok((result.ret, client_addr))
    }
}

/// What accepting a connection came to: the new connection's descriptor and
/// the client's address; or, for a negative return, `WouldBlock` when no
/// client was waiting and an accept failure otherwise.
pub fn accept_connection(result: CallReturn, client_addr: SockAddrIn) -> (r: Result<
    (i32, SockAddrIn),
    SocketError,
>)
    ensures
        r == accept_outcome(result, client_addr),
{
    if result.ret < 0 {
        if result.error.is_would_block() {
            Err(SocketError::WouldBlock)
        } else {
            Err(SocketError::Accept(result.error))
        }
    } else {
        Ok((result.ret, client_addr))
    }
}

/// Accepting sorts every result by its return value and the class of its
/// error alone: a non-negative return is the new connection with the peer's
/// address; a failure that only says the call would have had to wait is
/// `WouldBlock`, whatever its error number; every other failure is an accept
/// failure carrying the call's error.
pub proof fn lemma_accept_classification(result: CallReturn, client_addr: SockAddrIn)
    ensures
        result.ret >= 0 ==> accept_outcome(result, client_addr) == Ok::<(i32, SockAddrIn), SocketError>(
            (result.ret, client_addr),
        ),
        result.ret < 0 && result.error.kind == ErrorKind::WouldBlock ==> accept_outcome(
            result,
            client_addr,
        ) == Err::<(i32, SockAddrIn), SocketError>(SocketError::WouldBlock),
        result.ret < 0 && result.error.kind != ErrorKind::WouldBlock ==> accept_outcome(
            result,
            client_addr,
        ) == Err::<(i32, SockAddrIn), SocketError>(SocketError::Accept(result.error)),
{
}

} // verus!
