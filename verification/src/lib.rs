//! Socket configuration beyond what the standard library offers, written so
//! that every decision is verified and every native call is left to the host.
//!
//! The operations are those of hosts with the POSIX socket interface; see
//! [`sys`] for the calls that they are made of, and [`sys::windows`] for the
//! rules of the other family.

use vstd::prelude::*;

pub mod addr;
pub mod duration;
pub mod error;
pub mod ext;
pub mod socket;
pub mod sys;
pub mod tcp;
pub mod udp;

pub use crate::ext::{TcpBuilderExt, TcpListenerExt, TcpStreamExt, UdpBuilderExt, UdpSocketExt};
pub use crate::tcp::TcpBuilder;
pub use crate::udp::UdpBuilder;

use crate::addr::SocketAddr;
use crate::error::Error;

verus! {

/// How a native call reports its outcome: `-1` for a failure, anything else
/// for a success.
pub open spec fn cvt_spec(t: i32, errno: i32) -> Result<i32, Error> {
    if t == -1 {
        Err(Error::Os(errno))
    } else {
        Ok(t)
    }
}

/// Reads the result `t` of a native call. A result of `-1` is a failure and
/// becomes the error that carries `errno`, the code that the host gave for
/// it; any other result is handed back.
pub fn cvt(t: i32, errno: i32) -> (r: Result<i32, Error>)
    ensures
        r == cvt_spec(t, errno),
{
    if t == -1 {
        Err(Error::Os(errno))
    } else {
        Ok(t)
    }
}

/// The one address among `addrs`, if it is the only one.
pub open spec fn one_addr_spec(addrs: Seq<SocketAddr>) -> Result<SocketAddr, Error> {
    if addrs.len() == 0 {
        Err(Error::NoAddress)
    } else if addrs.len() == 1 {
        Ok(addrs[0])
    } else {
        Err(Error::ManyAddresses)
    }
}

/// Picks the address out of the list that a name resolved to, for an
/// operation that works on exactly one address. An empty list and a list of
/// several addresses are refused, each with an error of its own.
pub fn one_addr(addrs: &[SocketAddr]) -> (r: Result<SocketAddr, Error>)
    ensures
        r == one_addr_spec(addrs@),
{
    if addrs.len() == 0 {
        Err(Error::NoAddress)
    } else if addrs.len() == 1 {
        Ok(addrs[0])
    } else {
        Err(Error::ManyAddresses)
    }
}

/// An unsigned number that can be laid out in network byte order, in `N`
/// bytes.
pub trait NetInt<const N: usize>: Copy {
    /// The bytes of the number, most significant first.
    spec fn be_bytes(self) -> Seq<u8>;

    /// The bytes of the number, most significant first.
    fn to_be(self) -> (b: [u8; N])
        ensures
            b@ == self.be_bytes(),
    ;
}

impl NetInt<2> for u16 {
    open spec fn be_bytes(self) -> Seq<u8> {
        seq![(self / 0x100) as u8, (self % 0x100) as u8]
    }

    fn to_be(self) -> (b: [u8; 2]) {
        let b = [(self >> 8) as u8, (self & 0xff) as u8];
        assert(self >> 8 == self / 0x100) by (bit_vector);
        assert(self & 0xff == self % 0x100) by (bit_vector);
        assert(b@ =~= self.be_bytes());
        b
    }
}

impl NetInt<4> for u32 {
    open spec fn be_bytes(self) -> Seq<u8> {
        seq![
            (self / 0x100_0000) as u8,
            (self / 0x1_0000 % 0x100) as u8,
            (self / 0x100 % 0x100) as u8,
            (self % 0x100) as u8,
        ]
    }

    fn to_be(self) -> (b: [u8; 4]) {
        let b = [
            (self >> 24) as u8,
            ((self >> 16) & 0xff) as u8,
            ((self >> 8) & 0xff) as u8,
            (self & 0xff) as u8,
        ];
        assert(self >> 24 == self / 0x100_0000) by (bit_vector);
        assert((self >> 16) & 0xff == self / 0x1_0000 % 0x100) by (bit_vector);
        assert((self >> 8) & 0xff == self / 0x100 % 0x100) by (bit_vector);
        assert(self & 0xff == self % 0x100) by (bit_vector);
        assert(b@ =~= self.be_bytes());
        b
    }
}

/// Lays a number out in network byte order: its bytes, most significant
/// first, as they go into the host's address structures.
pub fn hton<const N: usize, I: NetInt<N>>(i: I) -> (b: [u8; N])
    ensures
        b@ == i.be_bytes(),
{
    i.to_be()
}

} // verus!
