//! Datagram sockets and their builder.

use vstd::prelude::*;
use crate::addr::SocketAddr;
use crate::error::Error;
use crate::socket::{finish_spec, with_socket_spec, NewSocket, Socket};
use crate::sys::{Family, SockType, Step, Syscall};
use crate::{one_addr, one_addr_spec};

verus! {

/// A datagram socket, by its descriptor.
#[derive(Debug, PartialEq, Eq)]
pub struct UdpSocket {
    /// The descriptor.
    pub fd: i32,
}

/// A datagram socket in the making. It is set up while the builder holds it
/// and leaves the builder, once, when it is bound. After that the builder is
/// finished and refuses every further operation.
#[derive(Debug)]
pub struct UdpBuilder {
    socket: Option<Socket>,
}

impl View for UdpBuilder {
    type V = Option<i32>;

    /// The descriptor of the socket that the builder holds; `None` once the
    /// builder is finished.
    closed spec fn view(&self) -> Option<i32> {
        match self.socket {
            Some(s) => Some(s.fd),
            None => None,
        }
    }
}

impl UdpBuilder {
    /// Starts the creation of an IPv4 datagram socket. The socket that comes
    /// out of it goes into a builder with [`UdpBuilder::from_inner`].
    pub fn new_v4() -> (first: Step<NewSocket, Socket>)
        ensures
            first == Socket::new_spec(Family::Inet, SockType::Dgram),
    {
        Socket::new(Family::Inet, SockType::Dgram)
    }

    /// Starts the creation of an IPv6 datagram socket. The socket that comes
    /// out of it goes into a builder with [`UdpBuilder::from_inner`].
    pub fn new_v6() -> (first: Step<NewSocket, Socket>)
        ensures
            first == Socket::new_spec(Family::Inet6, SockType::Dgram),
    {
        Socket::new(Family::Inet6, SockType::Dgram)
    }

    /// A fresh builder that holds `sock`.
    pub fn from_inner(sock: Socket) -> (b: UdpBuilder)
        ensures
            b@ == Some(sock.fd),
    {
        UdpBuilder { socket: Some(sock) }
    }

    /// The descriptor of the socket that the builder holds; `None` once the
    /// builder is finished.
    pub fn descriptor(&self) -> (fd: Option<i32>)
        ensures
            fd == self@,
    {
        match &self.socket {
            Some(s) => Some(s.fd),
            None => None,
        }
    }

    /// The socket that the builder holds. A finished builder has none and
    /// answers with an error.
    pub fn with_socket(&self) -> (r: Result<&Socket, Error>)
        ensures
            match r {
                Ok(s) => with_socket_spec(self@) == Ok::<i32, Error>(s.fd),
                Err(e) => with_socket_spec(self@) == Err::<i32, Error>(e),
            },
    {
        match &self.socket {
            Some(s) => Ok(s),
            None => Err(Error::BuilderFinished),
        }
    }

    /// The call that binds a builder in state `builder` to the one address
    /// among `addrs`.
    pub open spec fn bind_spec(builder: Option<i32>, addrs: Seq<SocketAddr>) -> Result<Syscall, Error> {
        match builder {
            None => Err(Error::BuilderFinished),
            Some(fd) => match one_addr_spec(addrs) {
                Ok(addr) => Ok(Syscall::Bind { fd, addr }),
                Err(e) => Err(e),
            },
        }
    }

    /// The call that binds the socket to the address that a name resolved
    /// to. A finished builder is refused before the addresses are looked at;
    /// then `addrs` must hold exactly one address. When the host has
    /// answered, [`UdpBuilder::finish_socket`] hands out the socket.
    pub fn bind(&self, addrs: &[SocketAddr]) -> (r: Result<Syscall, Error>)
        ensures
            r == UdpBuilder::bind_spec(self@, addrs@),
    {
        match &self.socket {
            None => Err(Error::BuilderFinished),
            Some(sock) => match one_addr(addrs) {
                Ok(addr) => Ok(sock.bind(&addr)),
                Err(e) => Err(e),
            },
        }
    }

    /// Ends a bind that came to `outcome`. After a success the socket leaves
    /// the builder and the builder is finished; after a failure the builder
    /// keeps its socket and hands the failure on.
    pub fn finish_socket(&mut self, outcome: Result<(), Error>) -> (r: Result<UdpSocket, Error>)
        ensures
            final(self)@ == finish_spec(old(self)@, outcome).0,
            match r {
                Ok(s) => finish_spec(old(self)@, outcome).1 == Ok::<i32, Error>(s.fd),
                Err(e) => finish_spec(old(self)@, outcome).1 == Err::<i32, Error>(e),
            },
    {
        match outcome {
            Err(e) => match &self.socket {
                None => Err(Error::BuilderFinished),
                Some(_) => Err(e),
            },
            Ok(_) => match self.socket.take() {
                None => Err(Error::BuilderFinished),
                Some(sock) => Ok(sock.into_udp_socket()),
            },
        }
    }
}

} // verus!
