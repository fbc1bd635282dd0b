use vstd::prelude::*;

verus! {

/// The coarse class of an operating-system error, as far as the server
/// tells errors apart: a call on a non-blocking descriptor that would have
/// had to wait, or anything else.
#[derive(Debug, Clone, Copy, PartialEq, Eq, Structural)]
pub enum ErrorKind {
    WouldBlock,
    Other,
}

/// An operating-system error, held as plain values: the raw error number
/// (when the error carries one) and its class.
#[derive(Debug, Clone, Copy, PartialEq, Eq, Structural)]
pub struct OsError {
    pub code: Option<i32>,
    pub kind: ErrorKind,
}

impl OsError {
    pub fn new(code: Option<i32>, kind: ErrorKind) -> (e: OsError)
        ensures
            e.code == code,
            e.kind == kind,
    {
        OsError { code, kind }
    }

    pub open spec fn spec_would_block(self) -> bool {
        self.kind == ErrorKind::WouldBlock
    }

    /// Whether the error only says that the call would have had to wait.
    pub fn is_would_block(&self) -> (b: bool)
        ensures
            b == self.spec_would_block(),
    {
        match self.kind {
            ErrorKind::WouldBlock => true,
            ErrorKind::Other => false,
        }
    }
}

/// Why setting up or using the listening socket failed, with the
/// operating-system error of the call that failed.
#[derive(Debug, Clone, Copy, PartialEq, Eq, Structural)]
pub enum SocketError {
    Create(OsError),
    SetOption(OsError),
    Bind(OsError),
    Listen(OsError),
    Accept(OsError),
    WouldBlock,
}

/// The error that a bare operating-system error becomes where it is passed
/// on as a `SocketError`: a would-block error stays a would-block error, any
/// other error is reported as a failure to create the socket.
pub open spec fn socket_error_of(error: OsError) -> SocketError {
    if error.kind == ErrorKind::WouldBlock {
        SocketError::WouldBlock
    } else {
        SocketError::Create(error)
    }
}

impl From<OsError> for SocketError {
    fn from(error: OsError) -> (e: SocketError) {
        match error.kind {
            ErrorKind::WouldBlock => SocketError::WouldBlock,
            ErrorKind::Other => SocketError::Create(error),
        }
    }
}

impl vstd::std_specs::convert::FromSpecImpl<OsError> for SocketError {
    open spec fn obeys_from_spec() -> bool {
        true
    }

    open spec fn from_spec(v: OsError) -> SocketError {
        socket_error_of(v)
    }
}

} // verus!
