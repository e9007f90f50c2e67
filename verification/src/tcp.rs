//! Stream sockets and their builder.

use vstd::prelude::*;
use crate::addr::SocketAddr;
use crate::error::Error;
use crate::socket::{finish_spec, with_socket_spec, ConnectTimeout, NewSocket, Socket};
use crate::sys::{Family, Operation, Reply, SockType, Step, Syscall, run};
use crate::{one_addr, one_addr_spec};

verus! {

/// A socket that accepts connections, by its descriptor.
#[derive(Debug, PartialEq, Eq)]
pub struct TcpListener {
    /// The descriptor.
    pub fd: i32,
}

/// A connected stream socket, by its descriptor.
#[derive(Debug, PartialEq, Eq)]
pub struct TcpStream {
    /// The descriptor.
    pub fd: i32,
}

/// A stream socket in the making. It is set up and bound while the builder
/// holds it, and leaves the builder as a listener or a stream, once. After
/// that the builder is finished and refuses every further operation.
#[derive(Debug)]
pub struct TcpBuilder {
    socket: Option<Socket>,
}

impl View for TcpBuilder {
    type V = Option<i32>;

    /// The descriptor of the socket that the builder holds; `None` once the
    /// builder is finished.
    closed spec fn view(&self) -> Option<i32> {
        match self.socket {
            Some(s) => Some(s.fd),
            None => None,
        }
    }
}

/// A connect that tries a list of addresses in order. The attempt on
/// `addrs[next]` is under way.
#[derive(Debug, PartialEq, Eq)]
pub struct Connect {
    /// The descriptor of the socket.
    pub fd: i32,
    /// The addresses to try.
    pub addrs: Vec<SocketAddr>,
    /// The index of the address that is being tried.
    pub next: usize,
}

impl Connect {
    /// The attempt on the address at index `i`.
    pub open spec fn attempt(fd: i32, addrs: Vec<SocketAddr>, i: int) -> Step<Connect, ()> {
        Step::Call(
            Connect { fd, addrs, next: i as usize },
            Syscall::Connect { fd, addr: addrs@[i] },
        )
    }

    /// The first step of a connect of the socket `fd` to one of `addrs`.
    pub open spec fn start_spec(fd: i32, addrs: Vec<SocketAddr>) -> Step<Connect, ()> {
        if addrs@.len() == 0 {
            Step::Done(Err(Error::NothingToConnect))
        } else {
            Connect::attempt(fd, addrs, 0)
        }
    }

    /// Starts a connect of the socket `fd` to one of `addrs`: to the first
    /// to which the host makes a connection. With no address to try, the
    /// operation fails before any call.
    pub fn start(fd: i32, addrs: Vec<SocketAddr>) -> (first: Step<Connect, ()>)
        ensures
            first == Connect::start_spec(fd, addrs),
    {
        if addrs.len() == 0 {
            Step::Done(Err(Error::NothingToConnect))
        } else {
            let addr = addrs[0];
            Step::Call(Connect { fd, addrs, next: 0 }, Syscall::Connect { fd, addr })
        }
    }
}

impl Operation for Connect {
    type Output = ();

    /// A connection ends the operation in success. A failure moves on to the
    /// next address; the failure on the last address is the outcome.
    open spec fn resume_spec(self, reply: Reply) -> Step<Connect, ()> {
        if reply.ret != -1 {
            Step::Done(Ok(()))
        } else if self.next + 1 < self.addrs@.len() {
            Connect::attempt(self.fd, self.addrs, self.next + 1)
        } else {
            Step::Done(Err(Error::Os(reply.errno)))
        }
    }

    fn resume(self, reply: Reply) -> (next: Step<Connect, ()>) {
        if reply.ret != -1 {
            Step::Done(Ok(()))
        } else if self.next < self.addrs.len() && self.next + 1 < self.addrs.len() {
            let i = self.next + 1;
            let addr = self.addrs[i];
            Step::Call(
                Connect { fd: self.fd, addrs: self.addrs, next: i },
                Syscall::Connect { fd: self.fd, addr },
            )
        } else {
            Step::Done(Err(Error::Os(reply.errno)))
        }
    }
}

/// The calls that try the addresses from index `from` up to and including
/// index `to`, in order.
pub open spec fn attempts(fd: i32, addrs: Seq<SocketAddr>, from: int, to: int) -> Seq<Syscall> {
    Seq::new((to - from + 1) as nat, |i: int| Syscall::Connect { fd, addr: addrs[from + i] })
}

/// A connect over several addresses stops at the first address to which the
/// host makes a connection: when the host fails the attempts before the one
/// at index `k` and makes that one, the addresses up to `k` are tried in
/// order, no other, and the operation succeeds.
pub proof fn lemma_connect_first_success(fd: i32, addrs: Vec<SocketAddr>, replies: Seq<Reply>, k: int)
    requires
        0 <= k < addrs@.len(),
        k < replies.len(),
        forall|i: int| 0 <= i < k ==> replies[i].ret == -1,
        replies[k].ret != -1,
    ensures
        run(Connect::start_spec(fd, addrs), replies).outcome == Some(Ok::<(), Error>(())),
        run(Connect::start_spec(fd, addrs), replies).calls == attempts(fd, addrs@, 0, k),
{
    lemma_connect_from(fd, addrs, replies, 0, k);
}

/// A connect over several addresses that the host fails one after the other
/// tries every address in order and ends with the failure of the last
/// attempt, not of the first.
pub proof fn lemma_connect_last_failure(fd: i32, addrs: Vec<SocketAddr>, replies: Seq<Reply>)
    requires
        0 < addrs@.len() <= replies.len(),
        forall|i: int| 0 <= i < addrs@.len() ==> replies[i].ret == -1,
    ensures
        run(Connect::start_spec(fd, addrs), replies).outcome == Some(
            Err::<(), Error>(Error::Os(replies[addrs@.len() - 1].errno)),
        ),
        run(Connect::start_spec(fd, addrs), replies).calls == attempts(fd, addrs@, 0, addrs@.len() - 1),
{
    lemma_connect_from(fd, addrs, replies, 0, addrs@.len() as int);
}

/// The course of a connect from the attempt on the address at index `j`,
/// when the host fails the attempts before the one at index `k`, and either
/// makes that one or there is none at `k`.
proof fn lemma_connect_from(fd: i32, addrs: Vec<SocketAddr>, replies: Seq<Reply>, j: int, k: int)
    requires
        0 <= j < addrs@.len(),
        j <= k <= addrs@.len(),
        j < addrs@.len(),
        k < addrs@.len() ==> replies.len() > k - j && replies[k - j].ret != -1,
        k == addrs@.len() ==> replies.len() >= k - j,
        forall|i: int| 0 <= i < k - j ==> replies[i].ret == -1,
    ensures
        k < addrs@.len() ==> {
            &&& run(Connect::attempt(fd, addrs, j), replies).outcome == Some(Ok::<(), Error>(()))
            &&& run(Connect::attempt(fd, addrs, j), replies).calls == attempts(fd, addrs@, j, k)
        },
        k == addrs@.len() ==> {
            &&& run(Connect::attempt(fd, addrs, j), replies).outcome == Some(
                Err::<(), Error>(Error::Os(replies[k - j - 1].errno)),
            )
            &&& run(Connect::attempt(fd, addrs, j), replies).calls == attempts(fd, addrs@, j, k - 1)
        },
    decreases k - j,
{
    reveal_with_fuel(run, 3);
    assert(addrs@.len() == addrs.len());
    let state = Connect { fd, addrs, next: j as usize };
    let call = Syscall::Connect { fd, addr: addrs@[j] };
    let rest = replies.drop_first();
    let course = run(Connect::attempt(fd, addrs, j), replies);
    if k == j {
        assert(course.calls =~= attempts(fd, addrs@, j, k));
    } else if j + 1 == addrs@.len() {
        assert(course.calls =~= attempts(fd, addrs@, j, k - 1));
    } else {
        assert(state.resume_spec(replies[0]) == Connect::attempt(fd, addrs, j + 1));
        assert forall|i: int| 0 <= i < k - (j + 1) implies rest[i].ret == -1 by {
            assert(rest[i] == replies[i + 1]);
        }
        lemma_connect_from(fd, addrs, rest, j + 1, k);
        let tail = run(Connect::attempt(fd, addrs, j + 1), rest);
        assert(course.calls == seq![call] + tail.calls);
        if k < addrs@.len() {
            assert(rest[k - (j + 1)] == replies[k - j]);
            assert(seq![call] + attempts(fd, addrs@, j + 1, k) =~= attempts(fd, addrs@, j, k));
        } else {
            assert(rest[k - (j + 1) - 1] == replies[k - j - 1]);
            assert(seq![call] + attempts(fd, addrs@, j + 1, k - 1) =~= attempts(fd, addrs@, j, k - 1));
        }
    }
}

impl TcpBuilder {
    /// Starts the creation of an IPv4 stream socket. The socket that comes
    /// out of it goes into a builder with [`TcpBuilder::from_inner`].
    pub fn new_v4() -> (first: Step<NewSocket, Socket>)
        ensures
            first == Socket::new_spec(Family::Inet, SockType::Stream),
    {
        Socket::new(Family::Inet, SockType::Stream)
    }

    /// Starts the creation of an IPv6 stream socket. The socket that comes
    /// out of it goes into a builder with [`TcpBuilder::from_inner`].
    pub fn new_v6() -> (first: Step<NewSocket, Socket>)
        ensures
            first == Socket::new_spec(Family::Inet6, SockType::Stream),
    {
        Socket::new(Family::Inet6, SockType::Stream)
    }

    /// A fresh builder that holds `sock`.
    pub fn from_inner(sock: Socket) -> (b: TcpBuilder)
        ensures
            b@ == Some(sock.fd),
    {
        TcpBuilder { socket: Some(sock) }
    }

    /// A fresh builder on the descriptor `fd`.
    pub fn from_descriptor(fd: i32) -> (b: TcpBuilder)
        ensures
            b@ == Some(fd),
    {
        TcpBuilder { socket: Some(Socket::from_inner(fd)) }
    }

    /// The descriptor of the socket that the builder holds; `None` once the
    /// builder is finished.
    pub fn descriptor(&self) -> (fd: Option<i32>)
        ensures
            fd == self@,
    {
        match &self.socket {
            Some(s) => Some(s.fd),
            None => None,
        }
    }

    /// The socket that the builder holds. A finished builder has none and
    /// answers with an error.
    pub fn with_socket(&self) -> (r: Result<&Socket, Error>)
        ensures
            match r {
                Ok(s) => with_socket_spec(self@) == Ok::<i32, Error>(s.fd),
                Err(e) => with_socket_spec(self@) == Err::<i32, Error>(e),
            },
    {
        match &self.socket {
            Some(s) => Ok(s),
            None => Err(Error::BuilderFinished),
        }
    }

    /// The call that binds a builder in state `builder` to the one address
    /// among `addrs`.
    pub open spec fn bind_spec(builder: Option<i32>, addrs: Seq<SocketAddr>) -> Result<Syscall, Error> {
        match builder {
            None => Err(Error::BuilderFinished),
            Some(fd) => match one_addr_spec(addrs) {
                Ok(addr) => Ok(Syscall::Bind { fd, addr }),
                Err(e) => Err(e),
            },
        }
    }

    /// The call that binds the socket to the address that a name resolved
    /// to. A finished builder is refused before the addresses are looked at;
    /// then `addrs` must hold exactly one address. The builder stays as it
    /// is, whatever the host replies.
    pub fn bind(&self, addrs: &[SocketAddr]) -> (r: Result<Syscall, Error>)
        ensures
            r == TcpBuilder::bind_spec(self@, addrs@),
    {
        match &self.socket {
            None => Err(Error::BuilderFinished),
            Some(sock) => match one_addr(addrs) {
                Ok(addr) => Ok(sock.bind(&addr)),
                Err(e) => Err(e),
            },
        }
    }

    /// The call that makes a builder in state `builder` listen.
    pub open spec fn listen_spec(builder: Option<i32>, backlog: i32) -> Result<Syscall, Error> {
        match builder {
            None => Err(Error::BuilderFinished),
            Some(fd) => Ok(Syscall::Listen { fd, backlog }),
        }
    }

    /// The call that marks the socket as ready to accept connections. When
    /// the host has answered, [`TcpBuilder::finish_listener`] hands out the
    /// listener.
    pub fn listen(&self, backlog: i32) -> (r: Result<Syscall, Error>)
        ensures
            r == TcpBuilder::listen_spec(self@, backlog),
    {
        match &self.socket {
            None => Err(Error::BuilderFinished),
            Some(sock) => Ok(sock.listen(backlog)),
        }
    }

    /// The first step of a connect of a builder in state `builder`.
    pub open spec fn connect_spec(builder: Option<i32>, addrs: Vec<SocketAddr>) -> Step<Connect, ()> {
        match builder {
            None => Step::Done(Err(Error::BuilderFinished)),
            Some(fd) => Connect::start_spec(fd, addrs),
        }
    }

    /// Starts a connect to one of `addrs`, which are tried in order until
    /// the host makes a connection. When the operation has ended,
    /// [`TcpBuilder::finish_stream`] hands out the stream.
    pub fn connect(&self, addrs: Vec<SocketAddr>) -> (first: Step<Connect, ()>)
        ensures
            first == TcpBuilder::connect_spec(self@, addrs),
    {
        match &self.socket {
            None => Step::Done(Err(Error::BuilderFinished)),
            Some(sock) => Connect::start(sock.fd, addrs),
        }
    }

    /// The first step of a timed connect of a builder in state `builder`.
    pub open spec fn connect_w_timeout_spec(
        builder: Option<i32>,
        addrs: Seq<SocketAddr>,
        ms: u64,
        in_progress: i32,
    ) -> Step<ConnectTimeout, ()> {
        match builder {
            None => Step::Done(Err(Error::BuilderFinished)),
            Some(fd) => match one_addr_spec(addrs) {
                Ok(addr) => (Socket { fd }).connect_w_timeout_spec(addr, ms, in_progress),
                Err(e) => Step::Done(Err(e)),
            },
        }
    }

    /// Starts a connect to the one address among `addrs` that gives up
    /// after `ms` milliseconds. `in_progress` is the code with which the host
    /// says that a connect has been started and is not finished. When the
    /// operation has ended, [`TcpBuilder::finish_stream`] hands out the
    /// stream.
    pub fn connect_w_timeout(&self, addrs: &[SocketAddr], ms: u64, in_progress: i32) -> (first: Step<ConnectTimeout, ()>)
        ensures
            first == TcpBuilder::connect_w_timeout_spec(self@, addrs@, ms, in_progress),
    {
        match &self.socket {
            None => Step::Done(Err(Error::BuilderFinished)),
            Some(sock) => match one_addr(addrs) {
                Ok(addr) => sock.connect_w_timeout(&addr, ms, in_progress),
                Err(e) => Step::Done(Err(e)),
            },
        }
    }

    /// Ends a listen that came to `outcome`. After a success the socket
    /// leaves the builder as a listener and the builder is finished; after a
    /// failure the builder keeps its socket and hands the failure on.
    pub fn finish_listener(&mut self, outcome: Result<(), Error>) -> (r: Result<TcpListener, Error>)
        ensures
            final(self)@ == finish_spec(old(self)@, outcome).0,
            match r {
                Ok(l) => finish_spec(old(self)@, outcome).1 == Ok::<i32, Error>(l.fd),
                Err(e) => finish_spec(old(self)@, outcome).1 == Err::<i32, Error>(e),
            },
    {
        match outcome {
            Err(e) => match &self.socket {
                None => Err(Error::BuilderFinished),
                Some(_) => Err(e),
            },
            Ok(_) => match self.socket.take() {
                None => Err(Error::BuilderFinished),
                Some(sock) => Ok(sock.into_tcp_listener()),
            },
        }
    }

    /// Ends a connect that came to `outcome`. After a success the socket
    /// leaves the builder as a stream and the builder is finished; after a
    /// failure the builder keeps its socket and hands the failure on.
    pub fn finish_stream(&mut self, outcome: Result<(), Error>) -> (r: Result<TcpStream, Error>)
        ensures
            final(self)@ == finish_spec(old(self)@, outcome).0,
            match r {
                Ok(s) => finish_spec(old(self)@, outcome).1 == Ok::<i32, Error>(s.fd),
                Err(e) => finish_spec(old(self)@, outcome).1 == Err::<i32, Error>(e),
            },
    {
        match outcome {
            Err(e) => match &self.socket {
                None => Err(Error::BuilderFinished),
                Some(_) => Err(e),
            },
            Ok(_) => match self.socket.take() {
                None => Err(Error::BuilderFinished),
                Some(sock) => Ok(sock.into_tcp_stream()),
            },
        }
    }
}

/// A builder gives its socket away once. When an operation has taken the
/// socket out of the builder, every later request to the builder is refused
/// as coming too late, without a call to the host: a bind, a listen, a
/// connect and a timed connect, and a second attempt to take the socket.
pub proof fn lemma_builder_single_use(
    builder: Option<i32>,
    outcome: Result<(), Error>,
    addrs: Vec<SocketAddr>,
    backlog: i32,
    ms: u64,
    in_progress: i32,
    later: Result<(), Error>,
)
    requires
        finish_spec(builder, outcome).1 is Ok,
    ensures
        ({
            let after = finish_spec(builder, outcome).0;
            &&& after is None
            &&& with_socket_spec(after) == Err::<i32, Error>(Error::BuilderFinished)
            &&& TcpBuilder::bind_spec(after, addrs@) == Err::<Syscall, Error>(Error::BuilderFinished)
            &&& TcpBuilder::listen_spec(after, backlog) == Err::<Syscall, Error>(Error::BuilderFinished)
            &&& TcpBuilder::connect_spec(after, addrs) == Step::<Connect, ()>::Done(
                Err(Error::BuilderFinished),
            )
            &&& TcpBuilder::connect_w_timeout_spec(after, addrs@, ms, in_progress) == Step::<
                ConnectTimeout,
                (),
            >::Done(Err(Error::BuilderFinished))
            &&& finish_spec(after, later) == (None::<i32>, Err::<i32, Error>(Error::BuilderFinished))
        }),
{
}

} // verus!
