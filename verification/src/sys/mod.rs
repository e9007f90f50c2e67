//! The boundary to the host's socket interface.
//!
//! Nothing in this library touches a descriptor. An operation names the native
//! call that the host is to perform as a [`Syscall`], and reads what came of
//! it from a [`Reply`]. An operation of several calls is a small machine: it
//! hands out one call at a time as a [`Step`] and is resumed with the reply.
//!
//! The calls are those of the POSIX socket interface, and so are the
//! operations of this library that are made of them: descriptors are small
//! integers, a call fails with `-1`, a socket is created and marked in two
//! calls of which only the first must succeed, and keepalive is a switch and
//! an idle time in two options. The module [`unix`] holds what else is
//! particular to that family. The module [`windows`] holds the rules by which
//! the legacy Windows interface differs; no operation here is made of them,
//! and a host of that family makes its calls by them itself.

use vstd::prelude::*;
use crate::addr::SocketAddr;
use crate::error::Error;

pub mod unix;
pub mod windows;

verus! {

/// The address family of a socket.
#[derive(Clone, Copy, Debug, PartialEq, Eq)]
pub enum Family {
    /// IPv4.
    Inet,
    /// IPv6.
    Inet6,
}

/// The kind of a socket.
#[derive(Clone, Copy, Debug, PartialEq, Eq)]
pub enum SockType {
    /// A connected byte stream.
    Stream,
    /// Datagrams.
    Dgram,
}

/// The socket options this library reads and writes. The host knows the level
/// and the number under which its platform keeps each of them.
#[derive(Clone, Copy, Debug, PartialEq, Eq)]
pub enum SockOpt {
    /// Send small segments at once instead of gathering them.
    NoDelay,
    /// Probe an idle connection.
    KeepAlive,
    /// Seconds of idleness before the first probe.
    KeepIdle,
    /// Longest wait of a read.
    RcvTimeo,
    /// Longest wait of a write.
    SndTimeo,
    /// Hops a packet may take.
    Ttl,
    /// Keep an IPv6 socket from carrying IPv4 traffic.
    V6Only,
    /// Allow sending to a broadcast address.
    Broadcast,
    /// Deliver IPv4 multicast packets back to the sender.
    MulticastLoopV4,
    /// Hops an IPv4 multicast packet may take.
    MulticastTtlV4,
    /// Deliver IPv6 multicast packets back to the sender.
    MulticastLoopV6,
    /// Join an IPv4 multicast group.
    AddMembershipV4,
    /// Leave an IPv4 multicast group.
    DropMembershipV4,
    /// Join an IPv6 multicast group.
    AddMembershipV6,
    /// Leave an IPv6 multicast group.
    DropMembershipV6,
}

/// A span of time as the host's calls take it: seconds and microseconds.
#[derive(Clone, Copy, Debug, PartialEq, Eq)]
pub struct Timeval {
    pub tv_sec: i64,
    pub tv_usec: i64,
}

/// An IPv4 address as it lies in the host's memory: four bytes in network
/// order.
#[derive(Clone, Copy, Debug, PartialEq, Eq)]
pub struct InAddr {
    pub s_addr: [u8; 4],
}

/// An IPv6 address as it lies in the host's memory: sixteen bytes in network
/// order.
#[derive(Clone, Copy, Debug, PartialEq, Eq)]
pub struct In6Addr {
    pub s6_addr: [u8; 16],
}

/// A request to join or leave an IPv4 multicast group.
#[derive(Clone, Copy, Debug, PartialEq, Eq)]
pub struct IpMreq {
    /// The group.
    pub imr_multiaddr: InAddr,
    /// The local interface, by its address.
    pub imr_interface: InAddr,
}

/// A request to join or leave an IPv6 multicast group.
#[derive(Clone, Copy, Debug, PartialEq, Eq)]
pub struct Ipv6Mreq {
    /// The group.
    pub ipv6mr_multiaddr: In6Addr,
    /// The local interface, by its index.
    pub ipv6mr_interface: u32,
}

/// The value written to a socket option.
#[derive(Clone, Copy, Debug, PartialEq, Eq)]
pub enum Payload {
    Int(i32),
    Time(Timeval),
    Membership(IpMreq),
    Membership6(Ipv6Mreq),
}

/// One native call for the host to perform.
#[derive(Clone, Copy, Debug, PartialEq, Eq)]
pub enum Syscall {
    /// Create a socket with the default protocol of its family and kind.
    Socket { family: Family, ty: SockType },
    /// Keep the descriptor from being inherited by a program started later.
    NoInherit { fd: i32 },
    /// Give the socket a local address.
    Bind { fd: i32, addr: SocketAddr },
    /// Mark the socket as ready to accept connections.
    Listen { fd: i32, backlog: i32 },
    /// Start or make a connection.
    Connect { fd: i32, addr: SocketAddr },
    /// Switch the socket's non-blocking mode on or off.
    SetNonblocking { fd: i32, nonblocking: bool },
    /// Wait on the one descriptor, at most for `timeout`, and return the
    /// number of descriptors that are ready. The descriptor is waited on for
    /// reading if `readable` says so, and for writing if `writable` says so.
    Wait { fd: i32, readable: bool, writable: bool, timeout: Timeval },
    /// Write one socket option.
    SetOpt { fd: i32, opt: SockOpt, payload: Payload },
    /// Read one socket option.
    GetOpt { fd: i32, opt: SockOpt },
    /// Close the descriptor.
    Close { fd: i32 },
}

/// What a native call returned.
#[derive(Clone, Copy, Debug, PartialEq, Eq)]
pub struct Reply {
    /// The result of the call; `-1` reports a failure.
    pub ret: i32,
    /// The host's code for the failure, where the call failed.
    pub errno: i32,
    /// The integer that the call read, where it read a socket option.
    pub value: i32,
    /// The length in bytes that the host reported for what the call read,
    /// where it read a socket option.
    pub len: u32,
}

/// The length in bytes of the native integer that a socket option holds.
pub const INT_LEN: u32 = 4;

/// What an operation of several calls does next.
#[derive(Debug, PartialEq, Eq)]
pub enum Step<M, T> {
    /// The host performs the call and resumes the operation, which is now in
    /// the given state, with the reply.
    Call(M, Syscall),
    /// The operation is over, with this outcome.
    Done(Result<T, Error>),
}

impl Timeval {
    /// The span of `ms` milliseconds.
    pub open spec fn from_millis_spec(ms: u64) -> Timeval {
        Timeval { tv_sec: (ms / 1000) as i64, tv_usec: ((ms % 1000) * 1000) as i64 }
    }

    /// The span of `ms` milliseconds: its whole seconds, and the rest in
    /// microseconds.
    pub fn from_millis(ms: u64) -> (tv: Timeval)
        ensures
            tv == Timeval::from_millis_spec(ms),
            tv.tv_sec == ms / 1000,
            tv.tv_usec == (ms % 1000) * 1000,
            tv.tv_sec * 1000 + tv.tv_usec / 1000 == ms,
    {
        Timeval { tv_sec: (ms / 1000) as i64, tv_usec: ((ms % 1000) * 1000) as i64 }
    }
}

impl Reply {
    /// The outcome of a call that is made for its effect alone.
    pub open spec fn outcome_spec(self) -> Result<(), Error> {
        if self.ret == -1 {
            Err(Error::Os(self.errno))
        } else {
            Ok(())
        }
    }

    /// A reply that reports success with the result `ret`.
    pub fn ok(ret: i32) -> (r: Reply)
        requires
            ret != -1,
        ensures
            r == (Reply { ret, errno: 0, value: 0, len: 0 }),
    {
        Reply { ret, errno: 0, value: 0, len: 0 }
    }

    /// A reply that reports the failure `errno`.
    pub fn failed(errno: i32) -> (r: Reply)
        ensures
            r == (Reply { ret: -1i32, errno, value: 0, len: 0 }),
    {
        Reply { ret: -1, errno, value: 0, len: 0 }
    }

    /// The reply of a call that read the integer `value` from a socket
    /// option, in its full length.
    pub fn read(value: i32) -> (r: Reply)
        ensures
            r == (Reply { ret: 0, errno: 0, value, len: INT_LEN }),
    {
        Reply { ret: 0, errno: 0, value, len: INT_LEN }
    }

    /// The outcome of a call that is made for its effect alone: the host's
    /// error if it failed, nothing otherwise.
    pub fn outcome(&self) -> (r: Result<(), Error>)
        ensures
            r == self.outcome_spec(),
    {
        if self.ret == -1 {
            Err(Error::Os(self.errno))
        } else {
            Ok(())
        }
    }
}

/// An operation that takes several native calls. Each state of it waits for
/// the reply to the call that was handed out with it.
pub trait Operation: Sized {
    /// What the operation yields when it succeeds.
    type Output;

    /// The step that follows when the pending call is answered by `reply`.
    spec fn resume_spec(self, reply: Reply) -> Step<Self, Self::Output>;

    /// Takes the reply to the pending call and says what comes next.
    fn resume(self, reply: Reply) -> (next: Step<Self, Self::Output>)
        ensures
            next == self.resume_spec(reply),
    ;
}

/// The course of an operation against a host: the calls that it made, in
/// order, and its outcome, if the replies sufficed to reach one.
pub struct Run<T> {
    pub calls: Seq<Syscall>,
    pub outcome: Option<Result<T, Error>>,
}

/// The course that an operation takes from `step` when the host answers its
/// calls with `replies`, in order. Replies beyond the end of the operation
/// are not looked at.
pub open spec fn run<M: Operation>(step: Step<M, M::Output>, replies: Seq<Reply>) -> Run<M::Output>
    decreases replies.len(),
{
    match step {
        Step::Done(outcome) => Run { calls: Seq::empty(), outcome: Some(outcome) },
        Step::Call(state, call) => {
            if replies.len() == 0 {
                Run { calls: seq![call], outcome: None }
            } else {
                let rest = run(state.resume_spec(replies[0]), replies.drop_first());
                Run { calls: seq![call] + rest.calls, outcome: rest.outcome }
            }
        },
    }
}

/// Carries an operation through against a host whose replies are known:
/// resumes it with `replies`, in order, until it is over or the replies are
/// used up. Gives the calls that the operation made and its outcome, if it
/// reached one.
pub fn replay<M: Operation>(first: Step<M, M::Output>, replies: &[Reply]) -> (course: (
    Vec<Syscall>,
    Option<Result<M::Output, Error>>,
))
    ensures
        course.0@ == run(first, replies@).calls,
        course.1 == run(first, replies@).outcome,
{
    let ghost whole = run(first, replies@);
    let mut calls: Vec<Syscall> = Vec::new();
    let mut step = first;
    let mut used: usize = 0;
    assert(replies@.skip(0) =~= replies@);
    loop
        invariant
            used <= replies.len(),
            whole == run(first, replies@),
            whole.calls == calls@ + run(step, replies@.skip(used as int)).calls,
            whole.outcome == run(step, replies@.skip(used as int)).outcome,
        decreases replies.len() - used,
    {
        let ghost rest = replies@.skip(used as int);
        match step {
            Step::Done(outcome) => {
                assert(calls@ + Seq::<Syscall>::empty() =~= calls@);
                return (calls, Some(outcome));
            },
            Step::Call(op, call) => {
                if used < replies.len() {
                    let ghost before = calls@;
                    let ghost next = op.resume_spec(replies@[used as int]);
                    assert(rest[0] == replies@[used as int]);
                    assert(rest.drop_first() =~= replies@.skip(used + 1));
                    calls.push(call);
                    assert(before + (seq![call] + run(next, rest.drop_first()).calls) =~= calls@
                        + run(next, rest.drop_first()).calls);
                    step = op.resume(replies[used]);
                    used = used + 1;
                } else {
                    assert(rest.len() == 0);
                    calls.push(call);
                    return (calls, None);
                }
            },
        }
    }
}

} // verus!
