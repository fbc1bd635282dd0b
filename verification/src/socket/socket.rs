use vstd::prelude::*;
use crate::socket::addr::{Ipv4Addr, SockAddrIn};
use crate::socket::errors::{socket_error_of, ErrorKind, OsError, SocketError};
use crate::socket::utils::{
    accept_connection, accept_outcome, bind_socket, create_socket, distributed_option,
    distributed_options, listen_socket, nonblocking_flags, set_nonblocking, CallReturn,
    SocketOption, DISTRIBUTED_OPTION_COUNT,
};

verus! {

/// How many connections may wait to be accepted.
pub const LISTEN_BACKLOG: i32 = 128;

/// A listening IPv4 stream socket: its descriptor and the address it is
/// bound to.
#[derive(Debug, Clone, Copy, PartialEq, Eq, Structural)]
pub struct Socket {
    pub sockfd: i32,
    pub addr: SockAddrIn,
}

/// Whether the non-blocking flag is being set while the socket is created
/// or after it has started listening.
#[derive(Debug, Clone, Copy, PartialEq, Eq, Structural)]
pub enum FlagStage {
    Create,
    Listen,
}

/// Where the setup of a listening socket stands.
#[derive(Debug, Clone, Copy, PartialEq, Eq, Structural)]
pub enum SetupPhase {
    /// The socket is being created.
    Creating,
    /// Option `index` of the new socket `fd` is being set.
    SettingOption { fd: i32, index: usize },
    /// The status flags of `fd` are being read.
    GettingFlags { fd: i32, stage: FlagStage },
    /// The status flags of `fd` are being written back with the
    /// non-blocking flag added.
    SettingFlags { fd: i32, stage: FlagStage },
    /// `fd` is being bound to the address.
    Binding { fd: i32 },
    /// `fd` is being made to listen.
    Listening { fd: i32 },
    /// The setup is over.
    Finished,
}

/// What the setup of a listening socket asks to be done next.
#[derive(Debug, Clone, Copy, PartialEq, Eq, Structural)]
pub enum SetupAction {
    /// Create an IPv4 stream socket.
    CreateSocket,
    /// Set `option` on `fd`.
    SetOption { fd: i32, option: SocketOption },
    /// Read the status flags of `fd`.
    GetFlags { fd: i32 },
    /// Write `flags` as the status flags of `fd`.
    SetFlags { fd: i32, flags: i32 },
    /// Bind `fd` to `addr`.
    Bind { fd: i32, addr: SockAddrIn },
    /// Make `fd` listen with a queue of `backlog` connections.
    Listen { fd: i32, backlog: i32 },
    /// The socket listens (the server announces
    /// `Socket listening on <address>:<port>`).
    Ready(Socket),
    /// The setup failed: close `close` if it names a descriptor (whatever
    /// closing it returns), then report `error`.
    Fail { close: Option<i32>, error: SocketError },
}

/// The operating system the server runs on, where the setup differs: on
/// Linux the socket is made non-blocking once more after it starts
/// listening; on macOS it is ready as soon as it listens.
#[derive(Debug, Clone, Copy, PartialEq, Eq, Structural)]
pub enum Platform {
    Linux,
    MacOs,
}

/// The setup of a socket listening on `ip` and `port` on `platform`.
/// `nonblock_flag` is the platform's value of the non-blocking status flag.
#[derive(Debug, Clone, Copy, PartialEq, Eq, Structural)]
pub struct SocketSetup {
    pub ip: Ipv4Addr,
    pub port: u16,
    pub nonblock_flag: i32,
    pub platform: Platform,
    pub phase: SetupPhase,
}

/// How a failure to set the non-blocking flag is reported: while creating
/// the socket, the socket is closed and the failure is an option failure;
/// after listening, the socket is kept open and the bare error is passed on
/// as a `SocketError`.
pub open spec fn nonblocking_failure(fd: i32, stage: FlagStage, error: OsError) -> SetupAction {
    match stage {
        FlagStage::Create => SetupAction::Fail { close: Some(fd), error: SocketError::SetOption(error) },
        FlagStage::Listen => SetupAction::Fail { close: None, error: socket_error_of(error) },
    }
}

impl SocketSetup {
    /// The setup is well formed: an option being set is one of the options
    /// a new socket gets.
    pub open spec fn wf(self) -> bool {
        self.phase matches SetupPhase::SettingOption { index, .. } ==> index
            < DISTRIBUTED_OPTION_COUNT
    }

    /// The setup as it goes on from `self` when the last action returned
    /// `r`, and the next action.
    pub open spec fn next(self, r: CallReturn) -> (SocketSetup, SetupAction) {
        let failed = SocketSetup { phase: SetupPhase::Finished, ..self };
        match self.phase {
            SetupPhase::Creating => if r.ret < 0 {
                (failed, SetupAction::Fail { close: None, error: SocketError::Create(r.error) })
            } else {
                (
                    SocketSetup { phase: SetupPhase::SettingOption { fd: r.ret, index: 0 }, ..self },
                    SetupAction::SetOption { fd: r.ret, option: distributed_options()[0] },
                )
            },
            SetupPhase::SettingOption { fd, index } => if r.ret < 0 {
                (failed, SetupAction::Fail { close: Some(fd), error: SocketError::SetOption(r.error) })
            } else if index + 1 < DISTRIBUTED_OPTION_COUNT {
                (
                    SocketSetup {
                        phase: SetupPhase::SettingOption { fd, index: (index + 1) as usize },
                        ..self
                    },
                    SetupAction::SetOption { fd, option: distributed_options()[index + 1] },
                )
            } else {
                (
                    SocketSetup {
                        phase: SetupPhase::GettingFlags { fd, stage: FlagStage::Create },
                        ..self
                    },
                    SetupAction::GetFlags { fd },
                )
            },
            SetupPhase::GettingFlags { fd, stage } => if r.ret < 0 {
                (failed, nonblocking_failure(fd, stage, r.error))
            } else {
                (
                    SocketSetup { phase: SetupPhase::SettingFlags { fd, stage }, ..self },
                    SetupAction::SetFlags { fd, flags: r.ret | self.nonblock_flag },
                )
            },
            SetupPhase::SettingFlags { fd, stage } => if r.ret < 0 {
                (failed, nonblocking_failure(fd, stage, r.error))
            } else {
                match stage {
                    FlagStage::Create => (
                        SocketSetup { phase: SetupPhase::Binding { fd }, ..self },
                        SetupAction::Bind { fd, addr: SockAddrIn::spec_new(self.ip, self.port) },
                    ),
                    FlagStage::Listen => (
                        failed,
                        SetupAction::Ready(
                            Socket { sockfd: fd, addr: SockAddrIn::spec_new(self.ip, self.port) },
                        ),
                    ),
                }
            },
            SetupPhase::Binding { fd } => if r.ret < 0 {
                (failed, SetupAction::Fail { close: None, error: SocketError::Bind(r.error) })
            } else {
                (
                    SocketSetup { phase: SetupPhase::Listening { fd }, ..self },
                    SetupAction::Listen { fd, backlog: LISTEN_BACKLOG },
                )
            },
            SetupPhase::Listening { fd } => if r.ret < 0 {
                (failed, SetupAction::Fail { close: None, error: SocketError::Listen(r.error) })
            } else {
                match self.platform {
                    Platform::Linux => (
                        SocketSetup {
                            phase: SetupPhase::GettingFlags { fd, stage: FlagStage::Listen },
                            ..self
                        },
                        SetupAction::GetFlags { fd },
                    ),
                    Platform::MacOs => (
                        failed,
                        SetupAction::Ready(
                            Socket { sockfd: fd, addr: SockAddrIn::spec_new(self.ip, self.port) },
                        ),
                    ),
                }
            },
            // A finished setup takes no more results; `step` is never called on it.
            SetupPhase::Finished => (self, SetupAction::CreateSocket),
        }
    }

    /// Whether the setup is over.
    pub fn is_finished(&self) -> (b: bool)
        ensures
            b == self.phase is Finished,
    {
        matches!(self.phase, SetupPhase::Finished)
    }

    /// Takes what the last action returned and gives the next action.
    pub fn step(&mut self, r: CallReturn) -> (action: SetupAction)
        requires
            old(self).wf(),
            !(old(self).phase is Finished),
        ensures
            (*final(self), action) == old(self).next(r),
            final(self).wf(),
    {
        let phase = self.phase;
        match phase {
            SetupPhase::Creating => {
                match create_socket(r) {
                    Err(error) => {
                        self.phase = SetupPhase::Finished;
                        SetupAction::Fail { close: None, error }
                    },
                    Ok(fd) => {
                        self.phase = SetupPhase::SettingOption { fd, index: 0 };
                        SetupAction::SetOption { fd, option: distributed_option(0) }
                    },
                }
            },
            SetupPhase::SettingOption { fd, index } => {
                if r.ret < 0 {
                    self.phase = SetupPhase::Finished;
                    SetupAction::Fail { close: Some(fd), error: SocketError::SetOption(r.error) }
                } else if index + 1 < DISTRIBUTED_OPTION_COUNT {
                    self.phase = SetupPhase::SettingOption { fd, index: index + 1 };
                    SetupAction::SetOption { fd, option: distributed_option(index + 1) }
                } else {
                    self.phase = SetupPhase::GettingFlags { fd, stage: FlagStage::Create };
                    SetupAction::GetFlags { fd }
                }
            },
            SetupPhase::GettingFlags { fd, stage } => {
                match nonblocking_flags(r, self.nonblock_flag) {
                    Err(error) => {
                        self.phase = SetupPhase::Finished;
                        Self::fail_nonblocking(fd, stage, error)
                    },
                    Ok(flags) => {
                        self.phase = SetupPhase::SettingFlags { fd, stage };
                        SetupAction::SetFlags { fd, flags }
                    },
                }
            },
            SetupPhase::SettingFlags { fd, stage } => {
                if let Err(error) = set_nonblocking(r) {
                    self.phase = SetupPhase::Finished;
                    Self::fail_nonblocking(fd, stage, error)
                } else {
                    match stage {
                        FlagStage::Create => {
                            self.phase = SetupPhase::Binding { fd };
                            SetupAction::Bind { fd, addr: SockAddrIn::new(self.ip, self.port) }
                        },
                        FlagStage::Listen => {
                            self.phase = SetupPhase::Finished;
                            SetupAction::Ready(
                                Socket { sockfd: fd, addr: SockAddrIn::new(self.ip, self.port) },
                            )
                        },
                    }
                }
            },
            SetupPhase::Binding { fd } => {
                match bind_socket(r) {
                    Err(error) => {
                        self.phase = SetupPhase::Finished;
                        SetupAction::Fail { close: None, error }
                    },
                    Ok(()) => {
                        self.phase = SetupPhase::Listening { fd };
                        SetupAction::Listen { fd, backlog: LISTEN_BACKLOG }
                    },
                }
            },
            SetupPhase::Listening { fd } => {
                match listen_socket(r) {
                    Err(error) => {
                        self.phase = SetupPhase::Finished;
                        SetupAction::Fail { close: None, error }
                    },
                    Ok(()) => match self.platform {
                        Platform::Linux => {
                            self.phase = SetupPhase::GettingFlags { fd, stage: FlagStage::Listen };
                            SetupAction::GetFlags { fd }
                        },
                        Platform::MacOs => {
                            self.phase = SetupPhase::Finished;
                            SetupAction::Ready(
                                Socket { sockfd: fd, addr: SockAddrIn::new(self.ip, self.port) },
                            )
                        },
                    },
                }
            },
            SetupPhase::Finished => SetupAction::CreateSocket,
        }
    }

    fn fail_nonblocking(fd: i32, stage: FlagStage, error: OsError) -> (action: SetupAction)
        ensures
            action == nonblocking_failure(fd, stage, error),
    {
        match stage {
            FlagStage::Create => SetupAction::Fail {
                close: Some(fd),
                error: SocketError::SetOption(error),
            },
            FlagStage::Listen => SetupAction::Fail { close: None, error: SocketError::from(error) },
        }
    }
}

/// The setup after taking the results `results` one after the other, and the
/// actions it gave, in order.
pub open spec fn setup_run(s: SocketSetup, results: Seq<CallReturn>) -> (SocketSetup, Seq<SetupAction>)
    decreases results.len(),
{
    if results.len() == 0 {
        (s, Seq::empty())
    } else {
        let (t, a) = s.next(results[0]);
        let (u, rest) = setup_run(t, results.drop_first());
        (u, seq![a] + rest)
    }
}

/// The descriptor that a phase works on, if any.
pub open spec fn phase_fd(phase: SetupPhase) -> Option<i32> {
    match phase {
        SetupPhase::SettingOption { fd, .. } => Some(fd),
        SetupPhase::GettingFlags { fd, .. } => Some(fd),
        SetupPhase::SettingFlags { fd, .. } => Some(fd),
        SetupPhase::Binding { fd } => Some(fd),
        SetupPhase::Listening { fd } => Some(fd),
        _ => None,
    }
}

/// Whether a phase belongs to creating the socket (setting its options and
/// making it non-blocking the first time).
pub open spec fn creating_phase(phase: SetupPhase) -> bool {
    ||| phase is SettingOption
    ||| phase matches SetupPhase::GettingFlags { stage: FlagStage::Create, .. }
    ||| phase matches SetupPhase::SettingFlags { stage: FlagStage::Create, .. }
}

/// How many calls a setup in this phase has left at most.
pub open spec fn calls_left(phase: SetupPhase) -> nat {
    match phase {
        SetupPhase::Creating => 14,
        SetupPhase::SettingOption { index, .. } => (13 - index) as nat,
        SetupPhase::GettingFlags { stage: FlagStage::Create, .. } => 6,
        SetupPhase::SettingFlags { stage: FlagStage::Create, .. } => 5,
        SetupPhase::Binding { .. } => 4,
        SetupPhase::Listening { .. } => 3,
        SetupPhase::GettingFlags { stage: FlagStage::Listen, .. } => 2,
        SetupPhase::SettingFlags { stage: FlagStage::Listen, .. } => 1,
        SetupPhase::Finished => 0,
    }
}

/// On Linux, when every call succeeds, setting up a socket makes exactly
/// these calls in this order, all on the descriptor the first call created:
/// the seven options in their order, the two calls that make the socket
/// non-blocking, bind to the socket address of `ip` and `port`, listen with a
/// queue of 128, the two non-blocking calls again; and then the socket is
/// ready, with that descriptor and address.
pub proof fn lemma_setup_success(ip: Ipv4Addr, port: u16, nonblock_flag: i32, results: Seq<CallReturn>)
    requires
        results.len() == 14,
        forall|i: int| 0 <= i < 14 ==> results[i].ret >= 0,
    ensures
        LISTEN_BACKLOG == 128,
        ({
            let start = SocketSetup {
                ip,
                port,
                nonblock_flag,
                platform: Platform::Linux,
                phase: SetupPhase::Creating,
            };
            let fd = results[0].ret;
            let addr = SockAddrIn::spec_new(ip, port);
            let opts = distributed_options();
            setup_run(start, results) == (
                SocketSetup { phase: SetupPhase::Finished, ..start },
                seq![
                    SetupAction::SetOption { fd, option: opts[0] },
                    SetupAction::SetOption { fd, option: opts[1] },
                    SetupAction::SetOption { fd, option: opts[2] },
                    SetupAction::SetOption { fd, option: opts[3] },
                    SetupAction::SetOption { fd, option: opts[4] },
                    SetupAction::SetOption { fd, option: opts[5] },
                    SetupAction::SetOption { fd, option: opts[6] },
                    SetupAction::GetFlags { fd },
                    SetupAction::SetFlags { fd, flags: results[8].ret | nonblock_flag },
                    SetupAction::Bind { fd, addr },
                    SetupAction::Listen { fd, backlog: LISTEN_BACKLOG },
                    SetupAction::GetFlags { fd },
                    SetupAction::SetFlags { fd, flags: results[12].ret | nonblock_flag },
                    SetupAction::Ready(Socket { sockfd: fd, addr }),
                ],
            )
        }),
{
    reveal_with_fuel(setup_run, 15);
}

/// On macOS, when every call succeeds, setting up a socket makes the same
/// calls as on Linux up to listening, and the socket is ready as soon as it
/// listens.
pub proof fn lemma_setup_success_macos(
    ip: Ipv4Addr,
    port: u16,
    nonblock_flag: i32,
    results: Seq<CallReturn>,
)
    requires
        results.len() == 12,
        forall|i: int| 0 <= i < 12 ==> results[i].ret >= 0,
    ensures
        ({
            let start = SocketSetup {
                ip,
                port,
                nonblock_flag,
                platform: Platform::MacOs,
                phase: SetupPhase::Creating,
            };
            let fd = results[0].ret;
            let addr = SockAddrIn::spec_new(ip, port);
            let opts = distributed_options();
            setup_run(start, results) == (
                SocketSetup { phase: SetupPhase::Finished, ..start },
                seq![
                    SetupAction::SetOption { fd, option: opts[0] },
                    SetupAction::SetOption { fd, option: opts[1] },
                    SetupAction::SetOption { fd, option: opts[2] },
                    SetupAction::SetOption { fd, option: opts[3] },
                    SetupAction::SetOption { fd, option: opts[4] },
                    SetupAction::SetOption { fd, option: opts[5] },
                    SetupAction::SetOption { fd, option: opts[6] },
                    SetupAction::GetFlags { fd },
                    SetupAction::SetFlags { fd, flags: results[8].ret | nonblock_flag },
                    SetupAction::Bind { fd, addr },
                    SetupAction::Listen { fd, backlog: LISTEN_BACKLOG },
                    SetupAction::Ready(Socket { sockfd: fd, addr }),
                ],
            )
        }),
{
    reveal_with_fuel(setup_run, 13);
}

/// Setting up a socket always ends: each call brings the setup closer to its
/// end, and a new setup makes at most 14 calls.
pub proof fn lemma_setup_ends(s: SocketSetup, r: CallReturn)
    requires
        s.wf(),
        !(s.phase is Finished),
    ensures
        calls_left(s.next(r).0.phase) < calls_left(s.phase),
        calls_left(SetupPhase::Creating) == 14,
{
}

/// A setup that fails closes the socket exactly when it fails while creating
/// it, and then the descriptor it closes is the one it created; a setup that
/// fails later leaves the socket open. The setup ends exactly when it
/// reports the socket ready or a failure, and every descriptor it works on is
/// the one the first call created.
pub proof fn lemma_setup_failure_closes(s: SocketSetup, r: CallReturn)
    requires
        s.wf(),
        !(s.phase is Finished),
    ensures
        ({
            let (t, a) = s.next(r);
            &&& a matches SetupAction::Fail { close, .. } ==> (close is Some <==> creating_phase(
                s.phase,
            )) && (close is Some ==> close == phase_fd(s.phase))
            &&& (t.phase is Finished <==> (a is Fail || a is Ready))
            &&& (s.phase !is Creating && !(t.phase is Finished)) ==> phase_fd(t.phase) == phase_fd(
                s.phase,
            )
            &&& (s.phase is Creating && !(t.phase is Finished)) ==> phase_fd(t.phase) == Some(r.ret)
            &&& a matches SetupAction::Ready(sock) ==> Some(sock.sockfd) == phase_fd(s.phase)
        }),
{
}

/// Every call the setup asks for counts: a negative return ends the setup
/// at once with a failure, whatever the error, and the failure names the
/// call that failed. Socket creation failing is a creation failure; a failed
/// option, or a failed non-blocking call while creating, is an option
/// failure and closes the new socket; a failed bind is a bind failure and a
/// failed listen a listen failure, both leaving the socket open; a failed
/// non-blocking call after listening leaves it open and is `WouldBlock` when
/// the error says the call would have had to wait, a creation failure
/// otherwise. A call that succeeds never ends the setup in failure.
pub proof fn lemma_failed_call_ends_setup(s: SocketSetup, r: CallReturn)
    requires
        s.wf(),
        !(s.phase is Finished),
    ensures
        r.ret < 0 ==> s.next(r).0.phase is Finished && s.next(r).1 is Fail,
        r.ret < 0 && s.phase is Creating ==> s.next(r).1 == (SetupAction::Fail {
            close: None,
            error: SocketError::Create(r.error),
        }),
        r.ret < 0 && s.phase is SettingOption ==> s.next(r).1 == (SetupAction::Fail {
            close: Some(s.phase->SettingOption_fd),
            error: SocketError::SetOption(r.error),
        }),
        r.ret < 0 && (s.phase matches SetupPhase::GettingFlags { fd, stage: FlagStage::Create }
            || s.phase matches SetupPhase::SettingFlags { fd, stage: FlagStage::Create })
            ==> s.next(r).1 == (SetupAction::Fail {
            close: phase_fd(s.phase),
            error: SocketError::SetOption(r.error),
        }),
        r.ret < 0 && s.phase is Binding ==> s.next(r).1 == (SetupAction::Fail {
            close: None,
            error: SocketError::Bind(r.error),
        }),
        r.ret < 0 && s.phase is Listening ==> s.next(r).1 == (SetupAction::Fail {
            close: None,
            error: SocketError::Listen(r.error),
        }),
        r.ret < 0 && (s.phase matches SetupPhase::GettingFlags { fd, stage: FlagStage::Listen }
            || s.phase matches SetupPhase::SettingFlags { fd, stage: FlagStage::Listen })
            ==> s.next(r).1 == (SetupAction::Fail {
            close: None,
            error: if r.error.kind == ErrorKind::WouldBlock {
                SocketError::WouldBlock
            } else {
                SocketError::Create(r.error)
            },
        }),
        r.ret >= 0 ==> !(s.next(r).1 is Fail),
{
}

/// Closing succeeds exactly when the call returns zero; any other return,
/// negative or positive, is a failure with the call's error.
pub proof fn lemma_close_succeeds_on_zero(result: CallReturn)
    ensures
        Socket::close_outcome(result) is Ok <==> result.ret == 0,
        result.ret != 0 ==> Socket::close_outcome(result) == Err::<(), OsError>(result.error),
{
}

impl Socket {
    /// Starts setting up a socket that listens on `ip` and `port`: creating
    /// it, setting its options, making it non-blocking, binding it, making it
    /// listen and, on Linux, making it non-blocking again. Gives the setup
    /// and its first action; `nonblock_flag` is the platform's value of the
    /// non-blocking status flag.
    pub fn new(ip: Ipv4Addr, port: u16, nonblock_flag: i32, platform: Platform) -> (r: (
        SocketSetup,
        SetupAction,
    ))
        ensures
            r.0 == (SocketSetup { ip, port, nonblock_flag, platform, phase: SetupPhase::Creating }),
            r.1 == SetupAction::CreateSocket,
    {
        (
            SocketSetup { ip, port, nonblock_flag, platform, phase: SetupPhase::Creating },
            SetupAction::CreateSocket,
        )
    }

    /// What accepting a connection on this socket came to, from what the
    /// accept call returned and the client's address it filled in.
    pub fn accept(&self, result: CallReturn, client_addr: SockAddrIn) -> (r: Result<
        (i32, SockAddrIn),
        SocketError,
    >)
        ensures
            r == accept_outcome(result, client_addr),
    {
        match accept_connection(result, client_addr) {
            Ok(connection) => Ok(connection),
            Err(SocketError::WouldBlock) => Err(SocketError::WouldBlock),
            Err(e) => Err(e),
        }
    }

    /// The socket's descriptor.
    pub fn fd(&self) -> (fd: i32)
        ensures
            fd == self.sockfd,
    {
        self.sockfd
    }

    /// What closing a socket came to, from what the close call returned.
    pub open spec fn close_outcome(result: CallReturn) -> Result<(), OsError> {
        if result.ret == 0 {
            Ok(())
        } else {
            Err(result.error)
        }
    }

    /// What closing the socket came to: a return of zero is success, any
    /// other return a failure with the call's error.
    pub fn close(&self, result: CallReturn) -> (r: Result<(), OsError>)
        ensures
            r == (if result.ret == 0 {
                Ok::<(), OsError>(())
            } else {
                Err(result.error)
            }),
            r == Self::close_outcome(result),
    {
        if result.ret == 0 {
            Ok(())
        } else {
            Err(result.error)
        }
    }
}

} // verus!
