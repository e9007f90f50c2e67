//! The socket handle and the operations that work on it directly.

use vstd::prelude::*;
use crate::addr::SocketAddr;
use crate::error::Error;
use crate::sys::{Family, Operation, Reply, SockType, Step, Syscall, Timeval, run};
use crate::tcp::{TcpListener, TcpStream};
use crate::udp::UdpSocket;

verus! {

/// A socket that is not yet a listener or a stream. It stands for exactly one
/// native descriptor, which goes over to the listener, the stream or the
/// datagram socket that it is turned into.
#[derive(Debug, PartialEq, Eq)]
pub struct Socket {
    /// The descriptor.
    pub fd: i32,
}

/// Which reply the creation of a socket is waiting for.
#[derive(Clone, Copy, Debug, PartialEq, Eq)]
pub enum Creation {
    /// To the call that creates the socket.
    Creating,
    /// To the call that keeps the new descriptor `fd` from being inherited.
    Flagging { fd: i32 },
}

/// The creation of a socket: the socket is made, then its descriptor is
/// marked so that programs started later do not inherit it. The socket is
/// handed out whether or not the mark could be set.
#[derive(Clone, Copy, Debug, PartialEq, Eq)]
pub struct NewSocket {
    /// The address family of the socket.
    pub family: Family,
    /// The kind of the socket.
    pub ty: SockType,
    /// How far the operation has come.
    pub stage: Creation,
}

impl Operation for NewSocket {
    type Output = Socket;

    open spec fn resume_spec(self, reply: Reply) -> Step<NewSocket, Socket> {
        match self.stage {
            Creation::Creating => if reply.ret == -1 {
                Step::Done(Err(Error::Os(reply.errno)))
            } else {
                Step::Call(
                    NewSocket { stage: Creation::Flagging { fd: reply.ret }, ..self },
                    Syscall::NoInherit { fd: reply.ret },
                )
            },
            Creation::Flagging { fd } => Step::Done(Ok(Socket { fd })),
        }
    }

    fn resume(self, reply: Reply) -> (next: Step<NewSocket, Socket>) {
        match self.stage {
            Creation::Creating => {
                if reply.ret == -1 {
                    Step::Done(Err(Error::Os(reply.errno)))
                } else {
                    let fd = reply.ret;
                    Step::Call(
                        NewSocket { stage: Creation::Flagging { fd }, ..self },
                        Syscall::NoInherit { fd },
                    )
                }
            },
            Creation::Flagging { fd } => Step::Done(Ok(Socket { fd })),
        }
    }
}

/// Which reply a timed connect is waiting for.
#[derive(Clone, Copy, Debug, PartialEq, Eq)]
pub enum Stage {
    /// To the switch into non-blocking mode.
    Unblocking,
    /// To the connect.
    Connecting,
    /// To the wait for readiness.
    Waiting,
    /// To the switch back into blocking mode. `outcome` is what the steps
    /// before it came to.
    Restoring { outcome: Result<(), Error> },
}

/// A connect that gives up after a time.
///
/// The socket is switched to non-blocking mode and the connection is
/// started. Unless that fails at once, the host waits until the descriptor is
/// ready to be read or to be written, or the time is over. Whatever happened after the switch to
/// non-blocking mode, the socket is switched back to blocking mode before the
/// operation ends.
#[derive(Clone, Copy, Debug, PartialEq, Eq)]
pub struct ConnectTimeout {
    /// The descriptor of the socket.
    pub fd: i32,
    /// Where to connect to.
    pub addr: SocketAddr,
    /// How long to wait at most.
    pub timeout: Timeval,
    /// The code with which the host says that a connect on a non-blocking
    /// socket has been started and is not finished.
    pub in_progress: i32,
    /// How far the operation has come.
    pub stage: Stage,
}

impl ConnectTimeout {
    /// What the wait came to: the host's error, a timeout if no descriptor
    /// was ready, success otherwise.
    pub open spec fn waited(reply: Reply) -> Result<(), Error> {
        if reply.ret == -1 {
            Err(Error::Os(reply.errno))
        } else if reply.ret == 0 {
            Err(Error::TimedOut)
        } else {
            Ok(())
        }
    }

    /// The outcome of the whole operation, once blocking mode was restored
    /// with `reply`. A failure of the host that was met before is reported as
    /// it was; then a failure to restore blocking mode; then what the wait
    /// came to.
    pub open spec fn restored(outcome: Result<(), Error>, reply: Reply) -> Result<(), Error> {
        match outcome {
            Err(Error::Os(code)) => Err(Error::Os(code)),
            _ => if reply.ret == -1 {
                Err(Error::Os(reply.errno))
            } else {
                outcome
            },
        }
    }
}

impl Operation for ConnectTimeout {
    type Output = ();

    open spec fn resume_spec(self, reply: Reply) -> Step<ConnectTimeout, ()> {
        let restore = Syscall::SetNonblocking { fd: self.fd, nonblocking: false };
        match self.stage {
            Stage::Unblocking => if reply.ret == -1 {
                Step::Done(Err(Error::Os(reply.errno)))
            } else {
                Step::Call(
                    ConnectTimeout { stage: Stage::Connecting, ..self },
                    Syscall::Connect { fd: self.fd, addr: self.addr },
                )
            },
            Stage::Connecting => if reply.ret == -1 && reply.errno != self.in_progress {
                Step::Call(
                    ConnectTimeout {
                        stage: Stage::Restoring { outcome: Err(Error::Os(reply.errno)) },
                        ..self
                    },
                    restore,
                )
            } else {
                Step::Call(
                    ConnectTimeout { stage: Stage::Waiting, ..self },
                    Syscall::Wait { fd: self.fd, readable: true, writable: true, timeout: self.timeout },
                )
            },
            Stage::Waiting => Step::Call(
                ConnectTimeout {
                    stage: Stage::Restoring { outcome: ConnectTimeout::waited(reply) },
                    ..self
                },
                restore,
            ),
            Stage::Restoring { outcome } => Step::Done(ConnectTimeout::restored(outcome, reply)),
        }
    }

    fn resume(self, reply: Reply) -> (next: Step<ConnectTimeout, ()>) {
        let restore = Syscall::SetNonblocking { fd: self.fd, nonblocking: false };
        match self.stage {
            Stage::Unblocking => {
                if reply.ret == -1 {
                    Step::Done(Err(Error::Os(reply.errno)))
                } else {
                    let call = Syscall::Connect { fd: self.fd, addr: self.addr };
                    Step::Call(ConnectTimeout { stage: Stage::Connecting, ..self }, call)
                }
            },
            Stage::Connecting => {
                if reply.ret == -1 && reply.errno != self.in_progress {
                    let outcome = Err(Error::Os(reply.errno));
                    Step::Call(ConnectTimeout { stage: Stage::Restoring { outcome }, ..self }, restore)
                } else {
                    let call = Syscall::Wait { fd: self.fd, readable: true, writable: true, timeout: self.timeout };
                    Step::Call(ConnectTimeout { stage: Stage::Waiting, ..self }, call)
                }
            },
            Stage::Waiting => {
                let outcome = if reply.ret == -1 {
                    Err(Error::Os(reply.errno))
                } else if reply.ret == 0 {
                    Err(Error::TimedOut)
                } else {
                    Ok(())
                };
                Step::Call(ConnectTimeout { stage: Stage::Restoring { outcome }, ..self }, restore)
            },
            Stage::Restoring { outcome } => {
                let end = match outcome {
                    Err(Error::Os(code)) => Err(Error::Os(code)),
                    _ => if reply.ret == -1 {
                        Err(Error::Os(reply.errno))
                    } else {
                        outcome
                    },
                };
                Step::Done(end)
            },
        }
    }
}

/// What a builder answers to a request that needs its socket. `builder` is
/// the descriptor of the socket that the builder holds, or `None` for a
/// builder that is finished.
pub open spec fn with_socket_spec(builder: Option<i32>) -> Result<i32, Error> {
    match builder {
        Some(fd) => Ok(fd),
        None => Err(Error::BuilderFinished),
    }
}

/// What becomes of a builder when the operation that was to finish it came
/// to `outcome`: the state of the builder afterwards, and the descriptor that
/// leaves it. Only a success takes the socket out of the builder.
pub open spec fn finish_spec(builder: Option<i32>, outcome: Result<(), Error>) -> (Option<i32>, Result<i32, Error>) {
    match (builder, outcome) {
        (None, _) => (None, Err(Error::BuilderFinished)),
        (Some(fd), Err(e)) => (Some(fd), Err(e)),
        (Some(fd), Ok(_)) => (None, Ok(fd)),
    }
}

/// The course of a timed connect, call by call. With `on` and `off` for the
/// switches into and out of non-blocking mode:
///
/// - if `on` fails, the operation ends at once with that failure;
/// - if the connect fails with anything but `in_progress`, `off` follows and
///   the operation ends with the failure of the connect;
/// - otherwise the wait and `off` follow, and the operation ends with the
///   failure of the wait, else with that of `off`, else with a timeout if no
///   descriptor was ready, else with success.
pub proof fn lemma_timed_connect_course(
    sock: Socket,
    addr: SocketAddr,
    ms: u64,
    in_progress: i32,
    r1: Reply,
    r2: Reply,
    r3: Reply,
    r4: Reply,
)
    ensures
        ({
            let course = run(sock.connect_w_timeout_spec(addr, ms, in_progress), seq![r1, r2, r3, r4]);
            let on = Syscall::SetNonblocking { fd: sock.fd, nonblocking: true };
            let off = Syscall::SetNonblocking { fd: sock.fd, nonblocking: false };
            let connect = Syscall::Connect { fd: sock.fd, addr };
            let wait = Syscall::Wait {
        fd: sock.fd,
        readable: true,
        writable: true,
        timeout: Timeval::from_millis_spec(ms),
    };
            if r1.ret == -1 {
                &&& course.calls == seq![on]
                &&& course.outcome == Some(Err::<(), Error>(Error::Os(r1.errno)))
            } else if r2.ret == -1 && r2.errno != in_progress {
                &&& course.calls == seq![on, connect, off]
                &&& course.outcome == Some(Err::<(), Error>(Error::Os(r2.errno)))
            } else {
                &&& course.calls == seq![on, connect, wait, off]
                &&& course.outcome == Some(
                    if r3.ret == -1 {
                        Err(Error::Os(r3.errno))
                    } else if r4.ret == -1 {
                        Err(Error::Os(r4.errno))
                    } else if r3.ret == 0 {
                        Err(Error::TimedOut)
                    } else {
                        Ok(())
                    },
                )
            }
        }),
{
    reveal_with_fuel(run, 5);
    let replies = seq![r1, r2, r3, r4];
    let first = sock.connect_w_timeout_spec(addr, ms, in_progress);
    let course = run(first, replies);
    assert(replies.drop_first() =~= seq![r2, r3, r4]);
    assert(replies.drop_first().drop_first() =~= seq![r3, r4]);
    assert(replies.drop_first().drop_first().drop_first() =~= seq![r4]);
    assert(replies.drop_first().drop_first().drop_first().drop_first() =~= Seq::<Reply>::empty());
    let on = Syscall::SetNonblocking { fd: sock.fd, nonblocking: true };
    let off = Syscall::SetNonblocking { fd: sock.fd, nonblocking: false };
    let connect = Syscall::Connect { fd: sock.fd, addr };
    let wait = Syscall::Wait {
        fd: sock.fd,
        readable: true,
        writable: true,
        timeout: Timeval::from_millis_spec(ms),
    };
    if r1.ret == -1 {
        assert(course.calls =~= seq![on]);
    } else if r2.ret == -1 && r2.errno != in_progress {
        assert(course.calls =~= seq![on, connect, off]);
    } else {
        assert(course.calls =~= seq![on, connect, wait, off]);
    }
}

/// A timed connect never leaves the socket in non-blocking mode: whatever
/// the host answers, and however many answers there are, an operation that
/// has ended either never got the socket into non-blocking mode, or made the
/// switch back to blocking mode its last call.
pub proof fn lemma_timed_connect_restores_blocking(
    sock: Socket,
    addr: SocketAddr,
    ms: u64,
    in_progress: i32,
    replies: Seq<Reply>,
)
    requires
        run(sock.connect_w_timeout_spec(addr, ms, in_progress), replies).outcome is Some,
    ensures
        ({
            let course = run(sock.connect_w_timeout_spec(addr, ms, in_progress), replies);
            let on = Syscall::SetNonblocking { fd: sock.fd, nonblocking: true };
            let off = Syscall::SetNonblocking { fd: sock.fd, nonblocking: false };
            &&& replies.len() >= 1
            &&& course.calls.len() >= 1
            &&& course.calls[0] == on
            &&& forall|i: int| 1 <= i < course.calls.len() ==> course.calls[i] != on
            &&& if replies[0].ret == -1 {
                course.calls.len() == 1
            } else {
                course.calls.last() == off
            }
        }),
{
    reveal_with_fuel(run, 5);
}

/// A timed connect ends in a timeout exactly when the socket went into
/// non-blocking mode, the connect did not fail outright, the wait found no
/// descriptor ready, and blocking mode was restored.
pub proof fn lemma_timed_connect_times_out(
    sock: Socket,
    addr: SocketAddr,
    ms: u64,
    in_progress: i32,
    r1: Reply,
    r2: Reply,
    r3: Reply,
    r4: Reply,
)
    ensures
        run(sock.connect_w_timeout_spec(addr, ms, in_progress), seq![r1, r2, r3, r4]).outcome == Some(
            Err::<(), Error>(Error::TimedOut),
        ) <==> {
            &&& r1.ret != -1
            &&& (r2.ret != -1 || r2.errno == in_progress)
            &&& r3.ret == 0
            &&& r4.ret != -1
        },
{
    lemma_timed_connect_course(sock, addr, ms, in_progress, r1, r2, r3, r4);
}

/// The course of the creation of a socket: if the host makes the socket, the
/// new descriptor is marked as not to be inherited and the socket on that
/// descriptor is the outcome, whatever the host says to the mark; if the host
/// makes no socket, its failure is the outcome and no second call is made.
pub proof fn lemma_new_socket_course(family: Family, ty: SockType, r1: Reply, r2: Reply)
    ensures
        ({
            let course = run(Socket::new_spec(family, ty), seq![r1, r2]);
            let create = Syscall::Socket { family, ty };
            if r1.ret == -1 {
                &&& course.calls == seq![create]
                &&& course.outcome == Some(Err::<Socket, Error>(Error::Os(r1.errno)))
            } else {
                &&& course.calls == seq![create, Syscall::NoInherit { fd: r1.ret }]
                &&& course.outcome == Some(Ok::<Socket, Error>(Socket { fd: r1.ret }))
            }
        }),
{
    reveal_with_fuel(run, 3);
    let replies = seq![r1, r2];
    let course = run(Socket::new_spec(family, ty), replies);
    assert(replies.drop_first() =~= seq![r2]);
    assert(replies.drop_first().drop_first() =~= Seq::<Reply>::empty());
    let create = Syscall::Socket { family, ty };
    if r1.ret == -1 {
        assert(course.calls =~= seq![create]);
    } else {
        assert(course.calls =~= seq![create, Syscall::NoInherit { fd: r1.ret }]);
    }
}

impl Socket {
    /// The first step of the creation of a socket.
    pub open spec fn new_spec(family: Family, ty: SockType) -> Step<NewSocket, Socket> {
        Step::Call(
            NewSocket { family, ty, stage: Creation::Creating },
            Syscall::Socket { family, ty },
        )
    }

    /// Starts the creation of a socket of the given family and kind. The
    /// reply to the first call carries the new descriptor as its result.
    pub fn new(family: Family, ty: SockType) -> (first: Step<NewSocket, Socket>)
        ensures
            first == Socket::new_spec(family, ty),
    {
        Step::Call(
            NewSocket { family, ty, stage: Creation::Creating },
            Syscall::Socket { family, ty },
        )
    }

    /// The socket that stands for the descriptor `fd`.
    pub fn from_inner(fd: i32) -> (s: Socket)
        ensures
            s == (Socket { fd }),
    {
        Socket { fd }
    }

    /// The descriptor.
    pub fn raw(&self) -> (fd: i32)
        ensures
            fd == self.fd,
    {
        self.fd
    }

    /// Gives up the socket and hands out its descriptor, which stays open.
    pub fn into_fd(self) -> (fd: i32)
        ensures
            fd == self.fd,
    {
        self.fd
    }

    /// Turns the socket into a listener on the same descriptor.
    pub fn into_tcp_listener(self) -> (l: TcpListener)
        ensures
            l == (TcpListener { fd: self.fd }),
    {
        TcpListener { fd: self.into_fd() }
    }

    /// Turns the socket into a stream on the same descriptor.
    pub fn into_tcp_stream(self) -> (s: TcpStream)
        ensures
            s == (TcpStream { fd: self.fd }),
    {
        TcpStream { fd: self.into_fd() }
    }

    /// Turns the socket into a datagram socket on the same descriptor.
    pub fn into_udp_socket(self) -> (s: UdpSocket)
        ensures
            s == (UdpSocket { fd: self.fd }),
    {
        UdpSocket { fd: self.into_fd() }
    }

    /// The call that binds the socket to `addr`. The host refuses it if the
    /// address is of another family than the socket or is in use.
    pub fn bind(&self, addr: &SocketAddr) -> (call: Syscall)
        ensures
            call == (Syscall::Bind { fd: self.fd, addr: *addr }),
    {
        Syscall::Bind { fd: self.fd, addr: *addr }
    }

    /// The call that marks the socket as ready to accept connections.
    /// `backlog` goes to the host as it is.
    pub fn listen(&self, backlog: i32) -> (call: Syscall)
        ensures
            call == (Syscall::Listen { fd: self.fd, backlog }),
    {
        Syscall::Listen { fd: self.fd, backlog }
    }

    /// The call that connects the socket to `addr`.
    pub fn connect(&self, addr: &SocketAddr) -> (call: Syscall)
        ensures
            call == (Syscall::Connect { fd: self.fd, addr: *addr }),
    {
        Syscall::Connect { fd: self.fd, addr: *addr }
    }

    /// Gives up a socket that was not turned into anything. The call closes
    /// its descriptor; what the host replies to it is of no interest.
    pub fn close(self) -> (call: Syscall)
        ensures
            call == (Syscall::Close { fd: self.fd }),
    {
        Syscall::Close { fd: self.fd }
    }

    /// The first step of a connect to `addr` that gives up after `ms`
    /// milliseconds. `in_progress` is the code with which the host says that
    /// a connect has been started and is not finished.
    pub open spec fn connect_w_timeout_spec(self, addr: SocketAddr, ms: u64, in_progress: i32) -> Step<ConnectTimeout, ()> {
        Step::Call(
            ConnectTimeout {
                fd: self.fd,
                addr,
                timeout: Timeval::from_millis_spec(ms),
                in_progress,
                stage: Stage::Unblocking,
            },
            Syscall::SetNonblocking { fd: self.fd, nonblocking: true },
        )
    }

    /// Starts a connect to `addr` that gives up after `ms` milliseconds.
    /// `in_progress` is the code with which the host says that a connect has
    /// been started and is not finished. The first call switches the socket
    /// to non-blocking mode.
    pub fn connect_w_timeout(&self, addr: &SocketAddr, ms: u64, in_progress: i32) -> (first: Step<ConnectTimeout, ()>)
        ensures
            first == self.connect_w_timeout_spec(*addr, ms, in_progress),
    {
        let op = ConnectTimeout {
            fd: self.fd,
            addr: *addr,
            timeout: Timeval::from_millis(ms),
            in_progress,
            stage: Stage::Unblocking,
        };
        Step::Call(op, Syscall::SetNonblocking { fd: self.fd, nonblocking: true })
    }
}

} // verus!
