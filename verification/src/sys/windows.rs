//! Conventions of hosts with the legacy Windows sockets interface.
//!
//! These are the rules by which that family differs from the POSIX one: how
//! a call that answers yes or no reports a failure, how a timeout is
//! carried, how keepalive is set and read in one call, and how a descriptor
//! enters a readiness set. They are functions on plain values; no operation
//! of this library is made of them, since its operations name the calls of
//! the POSIX family. A host of this family makes its calls itself and reads
//! their arguments and results by these rules.

use vstd::prelude::*;
use crate::duration::Duration;
use crate::error::Error;

verus! {

/// How many descriptors a readiness set holds.
pub const FD_SETSIZE: usize = 64;

/// The keepalive settings of a connection, as the host takes them in one
/// call. The times are in milliseconds.
#[derive(Clone, Copy, Debug, PartialEq, Eq)]
pub struct TcpKeepalive {
    /// Whether the connection is probed at all: zero for no.
    pub onoff: u32,
    /// Idle time before the first probe.
    pub keepalivetime: u32,
    /// Time between two probes.
    pub keepaliveinterval: u32,
}

/// A set of descriptors to wait on. A slot of `fd_array` that holds zero is
/// free.
#[derive(Clone, Copy, Debug, PartialEq, Eq)]
pub struct FdSet {
    /// How many descriptors were put into the set.
    pub fd_count: u32,
    /// The descriptors.
    pub fd_array: [u64; 64],
}

/// How a call of this family that answers yes or no reports its outcome:
/// zero for a failure, anything else for a success.
pub open spec fn cvt_spec(t: i32, errno: i32) -> Result<i32, Error> {
    if t == 0 {
        Err(Error::Os(errno))
    } else {
        Ok(t)
    }
}

/// Reads the result `t` of a call that answers yes or no. Zero is a failure
/// and becomes the error that carries `errno`, the code that the host gave
/// for it; any other result is handed back.
pub fn cvt(t: i32, errno: i32) -> (r: Result<i32, Error>)
    ensures
        r == cvt_spec(t, errno),
{
    if t == 0 {
        Err(Error::Os(errno))
    } else {
        Ok(t)
    }
}

/// The timeout in milliseconds that stands for `dur`: its whole seconds, in
/// as far as thirty-two bits hold them.
pub open spec fn dur2timeout_spec(dur: Option<Duration>) -> u32 {
    match dur {
        Some(d) => ((d.secs * 1000) % 0x1_0000_0000) as u32,
        None => 0,
    }
}

/// The span that a timeout in milliseconds stands for. Zero means that none
/// is set.
pub open spec fn timeout2dur_spec(ms: u32) -> Option<Duration> {
    if ms == 0 {
        None
    } else {
        Some(Duration { secs: (ms / 1000) as u64, nanos: 0 })
    }
}

/// Turns a span into the timeout in milliseconds that is written to a socket
/// option. The part below one second is dropped; `None` becomes zero, which
/// the host takes for "no timeout". Of a number of milliseconds beyond
/// thirty-two bits the low thirty-two bits are kept.
pub fn dur2timeout(dur: Option<Duration>) -> (ms: u32)
    ensures
        ms == dur2timeout_spec(dur),
        dur is None ==> ms == 0,
        dur matches Some(d) ==> (d.secs * 1000 <= u32::MAX ==> ms == d.secs * 1000),
{
    match dur {
        Some(d) => {
            let low: u64 = d.secs % 0x1_0000_0000;
            let ms: u64 = (low * 1000) % 0x1_0000_0000;
            assert(ms == (d.secs * 1000) % 0x1_0000_0000) by {
                lemma_low_bits_of_product(d.secs as int, 1000);
            }
            ms as u32
        },
        None => 0,
    }
}

/// The low thirty-two bits of a product are those of the product of the low
/// thirty-two bits of one factor with the other.
proof fn lemma_low_bits_of_product(a: int, b: int)
    requires
        0 <= a,
        0 <= b,
    ensures
        ((a % 0x1_0000_0000) * b) % 0x1_0000_0000 == (a * b) % 0x1_0000_0000,
{
    vstd::arithmetic::div_mod::lemma_mul_mod_noop_left(a, b, 0x1_0000_0000);
}

/// Turns a timeout in milliseconds read from a socket option into a span of
/// whole seconds. Zero reads as `None`: a timeout that was set to zero cannot
/// be told from one that was never set.
pub fn timeout2dur(ms: u32) -> (dur: Option<Duration>)
    ensures
        dur == timeout2dur_spec(ms),
        dur is None <==> ms == 0,
        dur matches Some(d) ==> d.secs == ms / 1000 && d.nanos == 0,
{
    if ms == 0 {
        None
    } else {
        Some(Duration { secs: (ms / 1000) as u64, nanos: 0 })
    }
}

/// What a timeout reads back as after it was written: the whole seconds of
/// the span, as long as their milliseconds fit into thirty-two bits, and
/// `None` for a span below one second as for no span at all.
pub proof fn lemma_timeout_round_trip(dur: Option<Duration>)
    requires
        dur matches Some(d) ==> d.secs * 1000 <= u32::MAX,
    ensures
        timeout2dur_spec(dur2timeout_spec(dur)) == match dur {
            Some(d) => if d.secs == 0 {
                None
            } else {
                Some(Duration { secs: d.secs, nanos: 0 })
            },
            None => None,
        },
{
}

/// The keepalive settings that stand for `keepalive`: probing is on exactly
/// when a span is given, and the span is both the idle time and the time
/// between probes.
pub open spec fn keepalive_vals_spec(keepalive: Option<Duration>) -> TcpKeepalive {
    TcpKeepalive {
        onoff: if keepalive is Some { 1 } else { 0 },
        keepalivetime: dur2timeout_spec(keepalive),
        keepaliveinterval: dur2timeout_spec(keepalive),
    }
}

/// The span that keepalive settings stand for: `None` where probing is off,
/// else the time between probes, with zero for "none" as in every timeout.
pub open spec fn keepalive_from_vals_spec(vals: TcpKeepalive) -> Option<Duration> {
    if vals.onoff == 0 {
        None
    } else {
        timeout2dur_spec(vals.keepaliveinterval)
    }
}

/// The settings that the host is given to switch keepalive probes on, with
/// the span as idle time and as time between probes, or off.
pub fn keepalive_vals(keepalive: Option<Duration>) -> (vals: TcpKeepalive)
    ensures
        vals == keepalive_vals_spec(keepalive),
{
    let ms = dur2timeout(keepalive);
    TcpKeepalive {
        onoff: if keepalive.is_some() { 1 } else { 0 },
        keepalivetime: ms,
        keepaliveinterval: ms,
    }
}

/// Reads keepalive settings that the host gave back.
pub fn keepalive_from_vals(vals: TcpKeepalive) -> (keepalive: Option<Duration>)
    ensures
        keepalive == keepalive_from_vals_spec(vals),
{
    if vals.onoff == 0 {
        None
    } else {
        timeout2dur(vals.keepaliveinterval)
    }
}

impl FdSet {
    /// The index of the first free slot at or after `from`, or the size of
    /// the set if there is none.
    pub open spec fn first_free(self, from: int) -> int
        decreases FD_SETSIZE - from,
    {
        if from < 0 || from >= FD_SETSIZE {
            FD_SETSIZE as int
        } else if self.fd_array@[from] == 0 {
            from
        } else {
            self.first_free(from + 1)
        }
    }

    /// The empty set.
    pub fn new() -> (set: FdSet)
        ensures
            set.fd_count == 0,
            forall|i: int| 0 <= i < FD_SETSIZE ==> set.fd_array@[i] == 0,
            set.first_free(0) == 0,
    {
        FdSet { fd_count: 0, fd_array: [0u64; 64] }
    }
}

/// Puts `socket` into the first free slot of `set` and counts it. A full set
/// stays as it is.
pub fn fd_set(socket: u64, set: &mut FdSet)
    requires
        old(set).fd_count < u32::MAX,
    ensures
        ({
            let i = old(set).first_free(0);
            if i < FD_SETSIZE {
                &&& 0 <= i
                &&& final(set).fd_count == old(set).fd_count + 1
                &&& final(set).fd_array@ == old(set).fd_array@.update(i, socket)
                &&& forall|j: int| 0 <= j < i ==> old(set).fd_array@[j] != 0
                &&& old(set).fd_array@[i] == 0
            } else {
                &&& *final(set) == *old(set)
                &&& forall|j: int| 0 <= j < FD_SETSIZE ==> old(set).fd_array@[j] != 0
            }
        }),
{
    let mut idx: usize = 0;
    while idx < FD_SETSIZE
        invariant
            idx <= FD_SETSIZE,
            *set == *old(set),
            set.fd_count < u32::MAX,
            forall|j: int| 0 <= j < idx ==> set.fd_array@[j] != 0,
            set.first_free(0) == set.first_free(idx as int),
        decreases FD_SETSIZE - idx,
    {
        if set.fd_array[idx] == 0 {
            set.fd_array[idx] = socket;
            set.fd_count = set.fd_count + 1;
            return ;
        }
        idx = idx + 1;
    }
}

} // verus!
