use vstd::prelude::*;
use crate::socket::addr::SockAddrIn;
use crate::socket::errors::SocketError;

verus! {

/// How long the server waits before accepting again when no client was
/// waiting.
pub const ACCEPT_RETRY_MILLIS: u64 = 100;

/// What the server does after trying to accept a connection.
#[derive(Debug, Clone, Copy, PartialEq, Eq, Structural)]
pub enum ServeAction {
    /// Serve the client on connection `fd` (announcing
    /// `Accepted connection from <client address>:<client port>`).
    Serve { fd: i32, client_addr: SockAddrIn },
    /// No client was waiting: wait `millis` milliseconds and try again.
    Retry { millis: u64 },
    /// Accepting failed: report the error and try again.
    Report(SocketError),
}

/// What the server does after an accept came to `accepted`.
pub open spec fn serve_outcome(accepted: Result<(i32, SockAddrIn), SocketError>) -> ServeAction {
    match accepted {
        Ok((fd, client_addr)) => ServeAction::Serve { fd, client_addr },
        Err(SocketError::WouldBlock) => ServeAction::Retry { millis: ACCEPT_RETRY_MILLIS },
        Err(e) => ServeAction::Report(e),
    }
}

/// What the server does after trying to accept a connection: serve the
/// client it accepted; wait 100 milliseconds when no client was waiting;
/// report any other failure and go on accepting.
pub fn serve_action(accepted: Result<(i32, SockAddrIn), SocketError>) -> (action: ServeAction)
    ensures
        action == (match accepted {
            Ok((fd, client_addr)) => ServeAction::Serve { fd, client_addr },
            Err(SocketError::WouldBlock) => ServeAction::Retry { millis: ACCEPT_RETRY_MILLIS },
            Err(e) => ServeAction::Report(e),
        }),
        action == serve_outcome(accepted),
{
    match accepted {
        Ok((fd, client_addr)) => ServeAction::Serve { fd, client_addr },
        Err(SocketError::WouldBlock) => ServeAction::Retry { millis: ACCEPT_RETRY_MILLIS },
        Err(e) => ServeAction::Report(e),
    }
}

/// The server serves exactly the connection it accepted, on its descriptor
/// and with its client's address; it waits 100 milliseconds exactly when no
/// client was waiting; every other failure is reported as it came, and the
/// server never stops accepting.
pub proof fn lemma_serve_per_outcome(accepted: Result<(i32, SockAddrIn), SocketError>)
    ensures
        accepted matches Ok((fd, a)) ==> serve_outcome(accepted) == (ServeAction::Serve {
            fd,
            client_addr: a,
        }),
        accepted == Err::<(i32, SockAddrIn), SocketError>(SocketError::WouldBlock)
            ==> serve_outcome(accepted) == (ServeAction::Retry { millis: 100 }),
        accepted matches Err(e) ==> (e != SocketError::WouldBlock ==> serve_outcome(accepted)
            == ServeAction::Report(e)),
{
}

} // verus!
