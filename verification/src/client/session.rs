use vstd::prelude::*;
use vstd::utf8::valid_utf8;
use crate::socket::addr::{Ipv4Addr, SockAddrIn};
use crate::socket::errors::{ErrorKind, OsError};
use crate::text::{format_response, is_valid_utf8, lemma_ascii_is_utf8, response_text};

verus! {

/// How many bytes the server asks for in one read from a client.
pub const READ_CAPACITY: usize = 1024;

/// How long the server waits before reading again from a client that had
/// nothing to read.
pub const RETRY_DELAY_MILLIS: u64 = 100;

/// What the operating system answered to the last action of a session.
#[derive(Debug, Clone, PartialEq, Eq)]
pub enum ClientEvent {
    /// The pause asked for has passed.
    Slept,
    /// A read returned `ret`; when `ret` is positive the bytes read are the
    /// first `ret` bytes of `buffer`. `error` is the thread's last
    /// operating-system error, read right after the call; it counts only
    /// when `ret` is negative.
    Read { ret: isize, buffer: Vec<u8>, error: OsError },
    /// A write returned `ret`, with the thread's last operating-system error
    /// read right after the call, which counts only when `ret` is negative.
    Wrote { ret: isize, error: OsError },
}

/// What a session asks to be done next with its connection.
#[derive(Debug, Clone, PartialEq, Eq)]
pub enum ClientAction {
    /// Read up to `capacity` bytes from the connection.
    Read { fd: i32, capacity: usize },
    /// Wait `millis` milliseconds.
    Sleep { millis: u64 },
    /// Write `bytes` to the connection.
    Write { fd: i32, bytes: Vec<u8> },
    /// Close the connection; the session is over.
    Close { fd: i32 },
}

/// What a session reports to the server's console along with an action.
#[derive(Debug, Clone, PartialEq, Eq)]
pub enum Notice {
    /// A read failed with this error (`Read error: ...`).
    ReadError(OsError),
    /// The client closed its end (`Client disconnected.`).
    Disconnected,
    /// The bytes read were not UTF-8 (`Invalid UTF-8 from <client>`).
    InvalidUtf8,
    /// Writing the answer failed (`Write error to <client>`).
    WriteError,
    /// The message was answered (`Received from <client>: <message>`).
    Received(Vec<u8>),
}

/// Where a session stands.
#[derive(Debug, Clone, PartialEq, Eq)]
pub enum Phase {
    /// A read is under way.
    Reading,
    /// A pause before the next read is under way.
    Sleeping,
    /// The answer to `message` is being written.
    Writing { message: Vec<u8> },
    /// The connection has been closed.
    Closed,
}

/// One step of a session: a notice to print, if any, then an action.
#[derive(Debug, Clone, PartialEq, Eq)]
pub struct ClientStep {
    pub notice: Option<Notice>,
    pub action: ClientAction,
}

/// The service of one connected client: the server reads what the client
/// sends and answers each UTF-8 message with
/// `Server <server address>:<server port> - Received: <message>`, until the
/// client disconnects or the connection fails.
#[derive(Debug, Clone, PartialEq, Eq)]
pub struct ClientSession {
    pub fd: i32,
    pub client_addr: SockAddrIn,
    pub server_ip: Ipv4Addr,
    pub server_port: u16,
    pub phase: Phase,
}

/// The read that a session of connection `fd` asks for.
pub open spec fn read_action(fd: i32) -> ClientAction {
    ClientAction::Read { fd, capacity: READ_CAPACITY }
}

/// One step of a session, from `before` on `event` to `after`, with `step` the
/// notice and action it gives.
pub open spec fn session_step(
    before: ClientSession,
    event: ClientEvent,
    after: ClientSession,
    step: ClientStep,
) -> bool {
    &&& after.fd == before.fd
    &&& after.client_addr == before.client_addr
    &&& after.server_ip == before.server_ip
    &&& after.server_port == before.server_port
    &&& match event {
        ClientEvent::Read { ret, buffer, error } => {
            if ret < 0 {
                if error.kind == ErrorKind::WouldBlock {
                    &&& after.phase is Sleeping
                    &&& step.notice is None
                    &&& step.action == (ClientAction::Sleep { millis: RETRY_DELAY_MILLIS })
                } else {
                    &&& after.phase is Closed
                    &&& step.notice == Some(Notice::ReadError(error))
                    &&& step.action == (ClientAction::Close { fd: before.fd })
                }
            } else if ret == 0 {
                &&& after.phase is Closed
                &&& step.notice == Some(Notice::Disconnected)
                &&& step.action == (ClientAction::Close { fd: before.fd })
            } else {
                let message = buffer@.subrange(0, ret as int);
                if valid_utf8(message) {
                    &&& after.phase matches Phase::Writing { message: m } && m@ == message
                    &&& step.notice is None
                    &&& step.action matches ClientAction::Write { fd, bytes } && fd == before.fd
                        && bytes@ == response_text(before.server_ip, before.server_port, message)
                } else {
                    &&& after.phase is Reading
                    &&& step.notice == Some(Notice::InvalidUtf8)
                    &&& step.action == read_action(before.fd)
                }
            }
        },
        ClientEvent::Slept => {
            &&& after.phase is Reading
            &&& step.notice is None
            &&& step.action == read_action(before.fd)
        },
        ClientEvent::Wrote { ret, error } => {
            if ret < 0 {
                &&& after.phase is Closed
                &&& step.notice == Some(Notice::WriteError)
                &&& step.action == (ClientAction::Close { fd: before.fd })
            } else {
                &&& after.phase is Reading
                &&& step.notice matches Some(Notice::Received(m)) && before.phase matches Phase::Writing {
                    message,
                } && m@ == message@
                &&& step.action == read_action(before.fd)
            }
        },
    }
}

/// A session closes the connection exactly when the client has disconnected
/// (a read of zero bytes), a read failed for another reason than having to
/// wait, or writing the answer failed; the descriptor it closes is the
/// session's own; and a closed session waits for nothing more.
pub proof fn lemma_session_closes(
    before: ClientSession,
    event: ClientEvent,
    after: ClientSession,
    step: ClientStep,
    later: ClientEvent,
)
    requires
        before.spec_accepts(&event),
        session_step(before, event, after, step),
    ensures
        step.action is Close <==> after.phase is Closed,
        step.action is Close <==> match event {
            ClientEvent::Read { ret, error, .. } => ret == 0 || (ret < 0 && error.kind
                != ErrorKind::WouldBlock),
            ClientEvent::Wrote { ret, .. } => ret < 0,
            ClientEvent::Slept => false,
        },
        step.action matches ClientAction::Close { fd } ==> fd == before.fd,
        after.phase is Closed ==> !after.spec_accepts(&later),
        event matches ClientEvent::Read { ret, .. } ==> (ret == 0 ==> step.notice == Some(
            Notice::Disconnected,
        )),
        event matches ClientEvent::Read { ret, error, .. } ==> (ret < 0 && error.kind
            != ErrorKind::WouldBlock ==> step.notice == Some(Notice::ReadError(error))),
        event matches ClientEvent::Wrote { ret, .. } ==> (ret < 0 ==> step.notice == Some(
            Notice::WriteError,
        )),
{
}

/// A read that would have had to wait is retried after a pause of 100
/// milliseconds, without closing or answering anything: the session sleeps,
/// and once the pause is over it reads again from the same connection.
pub proof fn lemma_would_block_retries(
    s0: ClientSession,
    ret: isize,
    buffer: Vec<u8>,
    error: OsError,
    s1: ClientSession,
    step1: ClientStep,
    s2: ClientSession,
    step2: ClientStep,
)
    requires
        s0.phase is Reading,
        ret < 0,
        error.kind == ErrorKind::WouldBlock,
        session_step(s0, ClientEvent::Read { ret, buffer, error }, s1, step1),
        session_step(s1, ClientEvent::Slept, s2, step2),
    ensures
        step1.notice is None,
        step1.action == (ClientAction::Sleep { millis: 100 }),
        s1.spec_accepts(&ClientEvent::Slept),
        step2.notice is None,
        step2.action == (ClientAction::Read { fd: s0.fd, capacity: 1024 }),
        s2.phase is Reading,
        s2.fd == s0.fd,
{
}

/// Each UTF-8 message the client sends is answered with
/// `Server <server address>:<server port> - Received: <message>`, written to
/// the same connection; once the answer is written the session reports the
/// message and reads again.
pub proof fn lemma_echo(
    s0: ClientSession,
    ret: isize,
    buffer: Vec<u8>,
    error: OsError,
    s1: ClientSession,
    step1: ClientStep,
    written: isize,
    write_error: OsError,
    s2: ClientSession,
    step2: ClientStep,
)
    requires
        s0.spec_accepts(&ClientEvent::Read { ret, buffer, error }),
        ret > 0,
        valid_utf8(buffer@.subrange(0, ret as int)),
        session_step(s0, ClientEvent::Read { ret, buffer, error }, s1, step1),
        written >= 0,
        session_step(s1, ClientEvent::Wrote { ret: written, error: write_error }, s2, step2),
    ensures
        step1.action matches ClientAction::Write { fd, bytes } && fd == s0.fd && bytes@
            == response_text(s0.server_ip, s0.server_port, buffer@.subrange(0, ret as int)),
        s1.spec_accepts(&ClientEvent::Wrote { ret: written, error: write_error }),
        step2.notice matches Some(Notice::Received(m)) && m@ == buffer@.subrange(0, ret as int),
        step2.action == read_action(s0.fd),
        s2.phase is Reading,
{
}

/// A message that is not UTF-8 is never answered: the session reports it and
/// reads again at once, with no pause.
pub proof fn lemma_invalid_utf8_ignored(
    s0: ClientSession,
    ret: isize,
    buffer: Vec<u8>,
    error: OsError,
    s1: ClientSession,
    step1: ClientStep,
)
    requires
        s0.spec_accepts(&ClientEvent::Read { ret, buffer, error }),
        ret > 0,
        !valid_utf8(buffer@.subrange(0, ret as int)),
        session_step(s0, ClientEvent::Read { ret, buffer, error }, s1, step1),
    ensures
        step1.notice == Some(Notice::InvalidUtf8),
        step1.action == read_action(s0.fd),
        s1.phase is Reading,
{
}

/// A message made only of ASCII bytes is always answered.
pub proof fn lemma_ascii_answered(
    s0: ClientSession,
    ret: isize,
    buffer: Vec<u8>,
    error: OsError,
    s1: ClientSession,
    step1: ClientStep,
)
    requires
        s0.spec_accepts(&ClientEvent::Read { ret, buffer, error }),
        ret > 0,
        forall|i: int| 0 <= i < ret ==> buffer@[i] < 128,
        session_step(s0, ClientEvent::Read { ret, buffer, error }, s1, step1),
    ensures
        step1.action matches ClientAction::Write { bytes, .. } && bytes@ == response_text(
            s0.server_ip,
            s0.server_port,
            buffer@.subrange(0, ret as int),
        ),
{
    lemma_ascii_is_utf8(buffer@.subrange(0, ret as int));
}

/// A session takes whatever answers the action it is waiting on: while
/// reading, every read result whose byte count fits in the buffer handed
/// over (a read that fills the whole buffer included), while pausing the end
/// of the pause, while writing every write result; once closed, nothing.
pub proof fn lemma_accepts_awaited_event(
    s: ClientSession,
    ret: isize,
    buffer: Vec<u8>,
    error: OsError,
    written: isize,
    write_error: OsError,
)
    ensures
        s.phase is Reading && ret <= buffer@.len() ==> s.spec_accepts(
            &ClientEvent::Read { ret, buffer, error },
        ),
        s.phase is Reading && buffer@.len() == READ_CAPACITY ==> s.spec_accepts(
            &ClientEvent::Read { ret: READ_CAPACITY as isize, buffer, error },
        ),
        READ_CAPACITY == 1024,
        s.phase is Sleeping ==> s.spec_accepts(&ClientEvent::Slept),
        s.phase is Writing ==> s.spec_accepts(&ClientEvent::Wrote { ret: written, error: write_error }),
        s.phase is Closed ==> !s.spec_accepts(&ClientEvent::Read { ret, buffer, error })
            && !s.spec_accepts(&ClientEvent::Slept) && !s.spec_accepts(
            &ClientEvent::Wrote { ret: written, error: write_error },
        ),
{
}

impl ClientSession {
    /// The session that serves the client at `client_addr` on connection
    /// `fd`, for the server at `server_ip` and `server_port`, and its first
    /// action, a read.
    pub fn new(fd: i32, client_addr: SockAddrIn, server_ip: Ipv4Addr, server_port: u16) -> (r: (
        ClientSession,
        ClientAction,
    ))
        ensures
            r.0.fd == fd,
            r.0.client_addr == client_addr,
            r.0.server_ip == server_ip,
            r.0.server_port == server_port,
            r.0.phase is Reading,
            r.1 == read_action(fd),
    {
        (
            ClientSession { fd, client_addr, server_ip, server_port, phase: Phase::Reading },
            ClientAction::Read { fd, capacity: READ_CAPACITY },
        )
    }

    /// Whether the session is waiting for `event`: a read's result while
    /// reading (with as many bytes in the buffer as the read reports), the
    /// end of the pause while pausing, a write's result while writing.
    pub open spec fn spec_accepts(&self, event: &ClientEvent) -> bool {
        match event {
            ClientEvent::Read { ret, buffer, .. } => self.phase is Reading && *ret <= buffer@.len(),
            ClientEvent::Slept => self.phase is Sleeping,
            ClientEvent::Wrote { .. } => self.phase is Writing,
        }
    }

    /// Whether the session is waiting for `event`.
    pub fn accepts(&self, event: &ClientEvent) -> (b: bool)
        ensures
            b == self.spec_accepts(event),
    {
        match event {
            ClientEvent::Read { ret, buffer, .. } => {
                matches!(self.phase, Phase::Reading) && (*ret < 0 || (*ret as usize) <= buffer.len())
            },
            ClientEvent::Slept => matches!(self.phase, Phase::Sleeping),
            ClientEvent::Wrote { .. } => matches!(self.phase, Phase::Writing { .. }),
        }
    }

    /// Whether the connection has been closed.
    pub fn is_closed(&self) -> (b: bool)
        ensures
            b == self.phase is Closed,
    {
        matches!(self.phase, Phase::Closed)
    }

    /// Takes the result of the last action and gives the next one.
    pub fn step(&mut self, event: ClientEvent) -> (step: ClientStep)
        requires
            old(self).spec_accepts(&event),
        ensures
            session_step(*old(self), event, *final(self), step),
    {
        let fd = self.fd;
        match event {
            ClientEvent::Read { ret, buffer, error } => {
                if ret < 0 {
                    if error.is_would_block() {
                        self.phase = Phase::Sleeping;
                        ClientStep {
                            notice: None,
                            action: ClientAction::Sleep { millis: RETRY_DELAY_MILLIS },
                        }
                    } else {
                        self.phase = Phase::Closed;
                        ClientStep {
                            notice: Some(Notice::ReadError(error)),
                            action: ClientAction::Close { fd },
                        }
                    }
                } else if ret == 0 {
                    self.phase = Phase::Closed;
                    ClientStep { notice: Some(Notice::Disconnected), action: ClientAction::Close { fd } }
                } else {
                    let n = ret as usize;
                    let mut message = buffer;
                    message.truncate(n);
                    assert(message@ =~= buffer@.subrange(0, ret as int));
                    if is_valid_utf8(message.as_slice()) {
                        let bytes = format_response(self.server_ip, self.server_port, message.as_slice());
                        self.phase = Phase::Writing { message };
                        ClientStep { notice: None, action: ClientAction::Write { fd, bytes } }
                    } else {
                        self.phase = Phase::Reading;
                        ClientStep {
                            notice: Some(Notice::InvalidUtf8),
                            action: ClientAction::Read { fd, capacity: READ_CAPACITY },
                        }
                    }
                }
            },
            ClientEvent::Slept => {
                self.phase = Phase::Reading;
                ClientStep { notice: None, action: ClientAction::Read { fd, capacity: READ_CAPACITY } }
            },
            ClientEvent::Wrote { ret, error: _ } => {
                if ret < 0 {
                    self.phase = Phase::Closed;
                    ClientStep { notice: Some(Notice::WriteError), action: ClientAction::Close { fd } }
                } else {
                    let mut phase = Phase::Reading;
                    std::mem::swap(&mut phase, &mut self.phase);
                    let message = match phase {
                        Phase::Writing { message } => message,
                        _ => Vec::new(),
                    };
                    ClientStep {
                        notice: Some(Notice::Received(message)),
                        action: ClientAction::Read { fd, capacity: READ_CAPACITY },
                    }
                }
            },
        }
    }
}

} // verus!
