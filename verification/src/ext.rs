//! Socket options: what is written for each, and how what was read is
//! understood.
//!
//! An accessor names the one native call that reads or writes its option.
//! The reply to a call that writes goes to [`setopt`], the reply to a call
//! that reads to the reader of the option's type: [`read_flag`],
//! [`read_count`] or [`read_timeout`]. A reader hands out what was read only
//! if the host reported the full length of the option for it.

use vstd::prelude::*;
use crate::addr::{Ipv4Addr, Ipv6Addr};
use crate::duration::Duration;
use crate::error::Error;
use crate::hton;
use crate::NetInt;
use crate::sys::unix::{dur2timeout, dur2timeout_spec, timeout2dur, timeout2dur_spec};
use crate::sys::{
    INT_LEN,
    In6Addr,
    InAddr,
    IpMreq,
    Ipv6Mreq,
    Operation,
    Payload,
    Reply,
    SockOpt,
    Step,
    Syscall,
    Timeval,
    run,
};
use crate::tcp::{TcpBuilder, TcpListener, TcpStream};
use crate::udp::{UdpBuilder, UdpSocket};

verus! {

/// The outcome of a call that wrote a socket option.
pub open spec fn setopt_spec(reply: Reply) -> Result<(), Error> {
    if reply.ret == -1 {
        Err(Error::Os(reply.errno))
    } else {
        Ok(())
    }
}

/// The outcome of a call that read a socket option of `size` bytes into
/// `slot`.
pub open spec fn getopt_spec<T>(reply: Reply, slot: T, size: u32) -> Result<T, Error> {
    if reply.ret == -1 {
        Err(Error::Os(reply.errno))
    } else if reply.len != size {
        Err(Error::BadLength)
    } else {
        Ok(slot)
    }
}

/// Reads the reply to a call that wrote a socket option: the host's error if
/// it refused the option, nothing otherwise.
pub fn setopt(reply: Reply) -> (r: Result<(), Error>)
    ensures
        r == setopt_spec(reply),
{
    if reply.ret == -1 {
        Err(Error::Os(reply.errno))
    } else {
        Ok(())
    }
}

/// Reads the reply to a call that read a socket option of `size` bytes into
/// `slot`. If the host refused the option, its error is the outcome. If it
/// reported another length than `size` for what it read, the slot was not
/// filled as a whole, and the outcome is an error of its own: a value that
/// was read in part is never handed out. Otherwise the outcome is what the
/// slot holds.
pub fn getopt<T>(reply: Reply, slot: T, size: u32) -> (r: Result<T, Error>)
    ensures
        r == getopt_spec(reply, slot, size),
        r is Ok ==> reply.ret != -1 && reply.len == size,
{
    if reply.ret == -1 {
        Err(Error::Os(reply.errno))
    } else if reply.len != size {
        Err(Error::BadLength)
    } else {
        Ok(slot)
    }
}

/// The integer that is written for a switch: one for on, zero for off.
pub open spec fn bool2int_spec(b: bool) -> i32 {
    if b {
        1
    } else {
        0
    }
}

/// The integer that is written for a switch: one for on, zero for off.
#[verifier::when_used_as_spec(bool2int_spec)]
pub fn bool2int(b: bool) -> (n: i32)
    ensures
        n == bool2int_spec(b),
{
    if b {
        1
    } else {
        0
    }
}

/// Whether an integer read for a switch says on: anything but zero does.
pub open spec fn int2bool_spec(n: i32) -> bool {
    n != 0
}

/// Whether an integer read for a switch says on: anything but zero does.
#[verifier::when_used_as_spec(int2bool_spec)]
pub fn int2bool(n: i32) -> (b: bool)
    ensures
        b == int2bool_spec(n),
{
    n != 0
}

/// The native integer with the bits of `n`.
pub open spec fn count2int_spec(n: u32) -> i32 {
    n as i32
}

/// The native integer that is written for the count `n`: the integer with
/// the same bits.
#[verifier::when_used_as_spec(count2int_spec)]
pub fn count2int(n: u32) -> (i: i32)
    ensures
        i == count2int_spec(n),
        i == if n <= i32::MAX {
            n as int
        } else {
            n - 0x1_0000_0000
        },
{
    assert(n <= 0x7fff_ffff ==> n as i32 == n) by (bit_vector);
    assert(n > 0x7fff_ffff ==> n as i32 == n - 0x1_0000_0000) by (bit_vector);
    #[verifier::truncate]
    (n as i32)
}

/// The count with the bits of the native integer `i`.
pub open spec fn int2count_spec(i: i32) -> u32 {
    i as u32
}

/// The count that a native integer read from an option stands for: the
/// count with the same bits.
#[verifier::when_used_as_spec(int2count_spec)]
pub fn int2count(i: i32) -> (n: u32)
    ensures
        n == int2count_spec(i),
        n == if i >= 0 {
            i as int
        } else {
            i + 0x1_0000_0000
        },
{
    assert(i >= 0 ==> i as u32 == i) by (bit_vector);
    assert(i < 0 ==> i as u32 == i + 0x1_0000_0000) by (bit_vector);
    #[verifier::truncate]
    (i as u32)
}

/// What a reply to the read of a switch says.
pub open spec fn read_flag_spec(reply: Reply) -> Result<bool, Error> {
    match getopt_spec(reply, reply.value, INT_LEN) {
        Ok(n) => Ok(int2bool_spec(n)),
        Err(e) => Err(e),
    }
}

/// What a reply to the read of a count says.
pub open spec fn read_count_spec(reply: Reply) -> Result<u32, Error> {
    match getopt_spec(reply, reply.value, INT_LEN) {
        Ok(n) => Ok(int2count_spec(n)),
        Err(e) => Err(e),
    }
}

/// What a reply to the read of a timeout says, when the call filled `slot`,
/// which takes `size` bytes on the host.
pub open spec fn read_timeout_spec(reply: Reply, slot: Timeval, size: u32) -> Result<
    Option<Duration>,
    Error,
> {
    match getopt_spec(reply, slot, size) {
        Ok(tv) => Ok(timeout2dur_spec(tv)),
        Err(e) => Err(e),
    }
}

/// Reads the reply to the read of a switch such as no-delay or broadcast.
/// The switch is a native integer, and is handed out only if the host
/// reported the length of one.
pub fn read_flag(reply: Reply) -> (r: Result<bool, Error>)
    ensures
        r == read_flag_spec(reply),
{
    match getopt(reply, reply.value, INT_LEN) {
        Ok(n) => Ok(int2bool(n)),
        Err(e) => Err(e),
    }
}

/// Reads the reply to the read of a count such as the time to live. The
/// count is a native integer, and is handed out only if the host reported
/// the length of one.
pub fn read_count(reply: Reply) -> (r: Result<u32, Error>)
    ensures
        r == read_count_spec(reply),
{
    match getopt(reply, reply.value, INT_LEN) {
        Ok(n) => Ok(int2count(n)),
        Err(e) => Err(e),
    }
}

/// Reads the reply to the read of a timeout, where the call filled `slot`,
/// which takes `size` bytes on the host. The timeout is handed out only if
/// the host reported that length. The zero timeout reads as `None`.
pub fn read_timeout(reply: Reply, slot: Timeval, size: u32) -> (r: Result<Option<Duration>, Error>)
    ensures
        r == read_timeout_spec(reply, slot, size),
{
    match getopt(reply, slot, size) {
        Ok(tv) => Ok(timeout2dur(tv)),
        Err(e) => Err(e),
    }
}

/// The call that writes the integer `value` to an option.
pub open spec fn set_int(fd: i32, opt: SockOpt, value: i32) -> Syscall {
    Syscall::SetOpt { fd, opt, payload: Payload::Int(value) }
}

/// The call that switches an option on or off.
pub open spec fn set_flag(fd: i32, opt: SockOpt, on: bool) -> Syscall {
    set_int(fd, opt, bool2int_spec(on))
}

/// The call that writes a count to an option.
pub open spec fn set_count(fd: i32, opt: SockOpt, n: u32) -> Syscall {
    set_int(fd, opt, count2int_spec(n))
}

/// The call that writes a timeout to an option.
pub open spec fn set_timeout(fd: i32, opt: SockOpt, dur: Option<Duration>) -> Syscall {
    Syscall::SetOpt { fd, opt, payload: Payload::Time(dur2timeout_spec(dur)) }
}

/// The call that reads an option.
pub open spec fn get(fd: i32, opt: SockOpt) -> Syscall {
    Syscall::GetOpt { fd, opt }
}

/// The reply of a host that keeps what it is given: to the read of the
/// option of the socket to which `write` wrote an integer, it answers with
/// that integer, in its full length.
pub open spec fn kept(write: Syscall, read: Syscall) -> Option<Reply> {
    match (write, read) {
        (
            Syscall::SetOpt { fd, opt, payload: Payload::Int(value) },
            Syscall::GetOpt { fd: fd2, opt: opt2 },
        ) => if fd == fd2 && opt == opt2 {
            Some(Reply { ret: 0, errno: 0, value, len: INT_LEN })
        } else {
            None
        },
        _ => None,
    }
}

/// A switch reads back as it was set: when the host keeps what it is given,
/// the read of an option that was switched on says on, and the read of one
/// that was switched off says off. This holds of every switch, among them
/// no-delay, broadcast, multicast loop and only-v6.
pub proof fn lemma_flag_reads_back(fd: i32, opt: SockOpt, on: bool)
    ensures
        kept(set_flag(fd, opt, on), get(fd, opt)) is Some,
        read_flag_spec(kept(set_flag(fd, opt, on), get(fd, opt))->0) == Ok::<bool, Error>(on),
{
}

/// A count reads back as it was set: when the host keeps what it is given,
/// the read of an option to which `n` was written says `n`. This holds of
/// every count, among them the time to live.
pub proof fn lemma_count_reads_back(fd: i32, opt: SockOpt, n: u32)
    ensures
        kept(set_count(fd, opt, n), get(fd, opt)) is Some,
        read_count_spec(kept(set_count(fd, opt, n), get(fd, opt))->0) == Ok::<u32, Error>(n),
{
    assert((n as i32) as u32 == n) by (bit_vector);
}

/// The bytes of an IPv6 address in network order: the two bytes of each
/// segment, the high one first, segment after segment.
pub open spec fn in6_bytes(segments: Seq<u16>) -> Seq<u8> {
    Seq::new(
        16,
        |k: int|
            if k % 2 == 0 {
                (segments[k / 2] / 0x100) as u8
            } else {
                (segments[k / 2] % 0x100) as u8
            },
    )
}

/// Lays an IPv4 address out as the host keeps it: the four octets are
/// gathered into one number, most significant first, and the number is put
/// in network byte order, which gives the octets in their order.
pub fn ip2in_addr(ip: &Ipv4Addr) -> (a: InAddr)
    ensures
        a.s_addr@ == ip.octets@,
{
    let oct = ip.octets();
    let a: u8 = oct[0];
    let b: u8 = oct[1];
    let c: u8 = oct[2];
    let d: u8 = oct[3];
    let packed: u32 = ((a as u32) << 24) | ((b as u32) << 16) | ((c as u32) << 8) | (d as u32);
    assert(packed / 0x100_0000 == a && packed / 0x1_0000 % 0x100 == b && packed / 0x100 % 0x100 == c
        && packed % 0x100 == d) by (bit_vector)
        requires
            packed == ((a as u32) << 24) | ((b as u32) << 16) | ((c as u32) << 8) | (d as u32),
    ;
    let addr = InAddr { s_addr: hton(packed) };
    assert(addr.s_addr@ =~= ip.octets@);
    addr
}

/// Lays an IPv6 address out as the host keeps it: each segment in network
/// byte order, segment after segment.
pub fn ip2in6_addr(ip: &Ipv6Addr) -> (a: In6Addr)
    ensures
        a.s6_addr@ == in6_bytes(ip.segments@),
{
    let seg = ip.segments();
    let mut bytes = [0u8; 16];
    let mut i: usize = 0;
    while i < 8
        invariant
            i <= 8,
            seg == ip.segments,
            forall|k: int| 0 <= k < 2 * i ==> bytes@[k] == in6_bytes(seg@)[k],
        decreases 8 - i,
    {
        let pair = hton(seg[i]);
        bytes[2 * i] = pair[0];
        bytes[2 * i + 1] = pair[1];
        i = i + 1;
    }
    assert(bytes@ =~= in6_bytes(seg@));
    In6Addr { s6_addr: bytes }
}

/// Whether `call` asks to join or leave, by `opt`, the IPv4 group
/// `multiaddr` on the local interface with the address `interface`.
pub open spec fn is_membership_v4(call: Syscall, fd: i32, opt: SockOpt, multiaddr: Ipv4Addr, interface: Ipv4Addr) -> bool {
    &&& call matches Syscall::SetOpt { fd: f, opt: o, payload: Payload::Membership(mreq) }
    &&& f == fd
    &&& o == opt
    &&& mreq.imr_multiaddr.s_addr@ == multiaddr.octets@
    &&& mreq.imr_interface.s_addr@ == interface.octets@
}

/// Whether `call` asks to join or leave, by `opt`, the IPv6 group
/// `multiaddr` on the local interface with the index `interface`.
pub open spec fn is_membership_v6(call: Syscall, fd: i32, opt: SockOpt, multiaddr: Ipv6Addr, interface: u32) -> bool {
    &&& call matches Syscall::SetOpt { fd: f, opt: o, payload: Payload::Membership6(mreq) }
    &&& f == fd
    &&& o == opt
    &&& mreq.ipv6mr_multiaddr.s6_addr@ == in6_bytes(multiaddr.segments@)
    &&& mreq.ipv6mr_interface == interface
}

/// Which reply the setting of keepalive is waiting for.
#[derive(Clone, Copy, Debug, PartialEq, Eq)]
pub enum KeepaliveStage {
    /// To the call on the switch.
    Switch,
    /// To the call on the idle time.
    Idle,
}

/// The setting of keepalive on a stream: the switch is written, on for a
/// span and off for none, and for a span its whole seconds are then written
/// as the idle time before the first probe.
#[derive(Clone, Copy, Debug, PartialEq, Eq)]
pub struct SetKeepalive {
    /// The descriptor of the stream.
    pub fd: i32,
    /// The idle time to set, or `None` to switch probing off.
    pub keepalive: Option<Duration>,
    /// How far the operation has come.
    pub stage: KeepaliveStage,
}

/// The reading of keepalive from a stream: the switch is read, and if it is
/// on, the idle time before the first probe.
#[derive(Clone, Copy, Debug, PartialEq, Eq)]
pub struct Keepalive {
    /// The descriptor of the stream.
    pub fd: i32,
    /// How far the operation has come.
    pub stage: KeepaliveStage,
}

impl SetKeepalive {
    /// The first step of setting keepalive on the socket `fd`.
    pub open spec fn start_spec(fd: i32, keepalive: Option<Duration>) -> Step<SetKeepalive, ()> {
        Step::Call(
            SetKeepalive { fd, keepalive, stage: KeepaliveStage::Switch },
            set_flag(fd, SockOpt::KeepAlive, keepalive is Some),
        )
    }

    /// The idle time that is written for a span: its whole seconds, as the
    /// native integer with the same low bits.
    pub open spec fn idle_spec(d: Duration) -> i32 {
        d.secs as i32
    }

    /// The idle time that is written for a span: its whole seconds. The part
    /// below one second is dropped. Of seconds beyond what the native
    /// integer holds the low thirty-two bits are kept, as a conversion
    /// between integer types does.
    #[verifier::when_used_as_spec(idle_spec)]
    pub fn idle(d: Duration) -> (secs: i32)
        ensures
            secs == SetKeepalive::idle_spec(d),
            secs == if d.secs % 0x1_0000_0000 <= i32::MAX {
                (d.secs % 0x1_0000_0000) as int
            } else {
                d.secs % 0x1_0000_0000 - 0x1_0000_0000
            },
            d.secs <= i32::MAX ==> secs == d.secs,
    {
        let whole: u64 = d.secs;
        assert(whole % 0x1_0000_0000 <= 0x7fff_ffff ==> whole as i32 == whole % 0x1_0000_0000)
            by (bit_vector);
        assert(whole % 0x1_0000_0000 > 0x7fff_ffff ==> whole as i32 == whole % 0x1_0000_0000
            - 0x1_0000_0000) by (bit_vector);
        #[verifier::truncate]
        (whole as i32)
    }
}

/// What is written and read for an idle time, in plain arithmetic. The idle
/// time written for a span is the native integer with the low thirty-two
/// bits of its whole seconds, and so the seconds themselves as long as the
/// native integer holds them. The span read from a native integer has that
/// many seconds, and a negative integer wraps around.
pub proof fn lemma_idle_time_wraps(d: Duration, value: i32)
    ensures
        SetKeepalive::idle_spec(d) == if d.secs % 0x1_0000_0000 <= i32::MAX {
            (d.secs % 0x1_0000_0000) as int
        } else {
            d.secs % 0x1_0000_0000 - 0x1_0000_0000
        },
        d.secs <= i32::MAX ==> SetKeepalive::idle_spec(d) == d.secs,
        Keepalive::span_spec(value).nanos == 0,
        Keepalive::span_spec(value).secs == if value >= 0 {
            value as int
        } else {
            value + 0x1_0000_0000_0000_0000
        },
{
    let whole: u64 = d.secs;
    assert(whole % 0x1_0000_0000 <= 0x7fff_ffff ==> whole as i32 == whole % 0x1_0000_0000)
        by (bit_vector);
    assert(whole % 0x1_0000_0000 > 0x7fff_ffff ==> whole as i32 == whole % 0x1_0000_0000
        - 0x1_0000_0000) by (bit_vector);
    assert(value >= 0 ==> value as u64 == value) by (bit_vector);
    assert(value < 0 ==> value as u64 == value + 0x1_0000_0000_0000_0000) by (bit_vector);
}

impl Operation for SetKeepalive {
    type Output = ();

    open spec fn resume_spec(self, reply: Reply) -> Step<SetKeepalive, ()> {
        if reply.ret == -1 {
            Step::Done(Err(Error::Os(reply.errno)))
        } else {
            match (self.stage, self.keepalive) {
                (KeepaliveStage::Switch, Some(d)) => Step::Call(
                    SetKeepalive { stage: KeepaliveStage::Idle, ..self },
                    set_int(self.fd, SockOpt::KeepIdle, SetKeepalive::idle_spec(d)),
                ),
                _ => Step::Done(Ok(())),
            }
        }
    }

    fn resume(self, reply: Reply) -> (next: Step<SetKeepalive, ()>) {
        if reply.ret == -1 {
            Step::Done(Err(Error::Os(reply.errno)))
        } else {
            match (self.stage, self.keepalive) {
                (KeepaliveStage::Switch, Some(d)) => Step::Call(
                    SetKeepalive { stage: KeepaliveStage::Idle, ..self },
                    Syscall::SetOpt {
                        fd: self.fd,
                        opt: SockOpt::KeepIdle,
                        payload: Payload::Int(SetKeepalive::idle(d)),
                    },
                ),
                _ => Step::Done(Ok(())),
            }
        }
    }
}

impl Keepalive {
    /// The first step of reading keepalive from the socket `fd`.
    pub open spec fn start_spec(fd: i32) -> Step<Keepalive, Option<Duration>> {
        Step::Call(Keepalive { fd, stage: KeepaliveStage::Switch }, get(fd, SockOpt::KeepAlive))
    }

    /// The span that an idle time read from the host stands for.
    pub open spec fn span_spec(value: i32) -> Duration {
        Duration { secs: value as u64, nanos: 0 }
    }

    /// The span that an idle time read from the host stands for: that many
    /// whole seconds. A negative number wraps around, as a conversion
    /// between integer types does.
    #[verifier::when_used_as_spec(span_spec)]
    pub fn span(value: i32) -> (d: Duration)
        ensures
            d == Keepalive::span_spec(value),
            d.nanos == 0,
            d.secs == if value >= 0 {
                value as int
            } else {
                value + 0x1_0000_0000_0000_0000
            },
    {
        assert(value >= 0 ==> value as u64 == value) by (bit_vector);
        assert(value < 0 ==> value as u64 == value + 0x1_0000_0000_0000_0000) by (bit_vector);
        Duration { secs: #[verifier::truncate] (value as u64), nanos: 0 }
    }
}

impl Operation for Keepalive {
    type Output = Option<Duration>;

    /// Each of the two reads ends the operation in the host's error if the
    /// host refused it, and in an error of its own if the host did not
    /// report the length of a native integer for it.
    open spec fn resume_spec(self, reply: Reply) -> Step<Keepalive, Option<Duration>> {
        match getopt_spec(reply, reply.value, INT_LEN) {
            Err(e) => Step::Done(Err(e)),
            Ok(value) => match self.stage {
                KeepaliveStage::Switch => if value == 0 {
                    Step::Done(Ok(None))
                } else {
                    Step::Call(
                        Keepalive { stage: KeepaliveStage::Idle, ..self },
                        get(self.fd, SockOpt::KeepIdle),
                    )
                },
                KeepaliveStage::Idle => Step::Done(Ok(Some(Keepalive::span_spec(value)))),
            },
        }
    }

    fn resume(self, reply: Reply) -> (next: Step<Keepalive, Option<Duration>>) {
        match getopt(reply, reply.value, INT_LEN) {
            Err(e) => Step::Done(Err(e)),
            Ok(value) => match self.stage {
                KeepaliveStage::Switch => {
                    if value == 0 {
                        Step::Done(Ok(None))
                    } else {
                        Step::Call(
                            Keepalive { stage: KeepaliveStage::Idle, ..self },
                            Syscall::GetOpt { fd: self.fd, opt: SockOpt::KeepIdle },
                        )
                    }
                },
                KeepaliveStage::Idle => Step::Done(Ok(Some(Keepalive::span(value)))),
            },
        }
    }
}

/// The course of setting keepalive. To switch probing off takes one call.
/// To switch it on takes the call on the switch and, if the host took that,
/// the call on the idle time; the first failure is the outcome.
pub proof fn lemma_set_keepalive_course(fd: i32, keepalive: Option<Duration>, r1: Reply, r2: Reply)
    ensures
        ({
            let course = run(SetKeepalive::start_spec(fd, keepalive), seq![r1, r2]);
            let switch = set_flag(fd, SockOpt::KeepAlive, keepalive is Some);
            if r1.ret == -1 {
                &&& course.calls == seq![switch]
                &&& course.outcome == Some(Err::<(), Error>(Error::Os(r1.errno)))
            } else {
                match keepalive {
                    None => {
                        &&& course.calls == seq![switch]
                        &&& course.outcome == Some(Ok::<(), Error>(()))
                    },
                    Some(d) => {
                        &&& course.calls == seq![
                            switch,
                            set_int(fd, SockOpt::KeepIdle, SetKeepalive::idle_spec(d)),
                        ]
                        &&& course.outcome == Some(setopt_spec(r2))
                    },
                }
            }
        }),
{
    reveal_with_fuel(run, 3);
    let replies = seq![r1, r2];
    let course = run(SetKeepalive::start_spec(fd, keepalive), replies);
    assert(replies.drop_first() =~= seq![r2]);
    assert(replies.drop_first().drop_first() =~= Seq::<Reply>::empty());
    let switch = set_flag(fd, SockOpt::KeepAlive, keepalive is Some);
    if r1.ret != -1 && keepalive is Some {
        assert(course.calls =~= seq![
            switch,
            set_int(fd, SockOpt::KeepIdle, SetKeepalive::idle_spec(keepalive->0)),
        ]);
    } else {
        assert(course.calls =~= seq![switch]);
    }
}

/// The course of reading keepalive. A switch that reads zero means that no
/// keepalive is set, and nothing more is asked. Otherwise the idle time is
/// read, and its seconds are the outcome. The first read that the host
/// refuses, or for which it does not report the length of a native integer,
/// ends the operation in that failure.
pub proof fn lemma_keepalive_course(fd: i32, r1: Reply, r2: Reply)
    ensures
        ({
            let course = run(Keepalive::start_spec(fd), seq![r1, r2]);
            let switch = get(fd, SockOpt::KeepAlive);
            if r1.ret == -1 {
                &&& course.calls == seq![switch]
                &&& course.outcome == Some(Err::<Option<Duration>, Error>(Error::Os(r1.errno)))
            } else if r1.len != INT_LEN {
                &&& course.calls == seq![switch]
                &&& course.outcome == Some(Err::<Option<Duration>, Error>(Error::BadLength))
            } else if r1.value == 0 {
                &&& course.calls == seq![switch]
                &&& course.outcome == Some(Ok::<Option<Duration>, Error>(None))
            } else {
                &&& course.calls == seq![switch, get(fd, SockOpt::KeepIdle)]
                &&& course.outcome == Some(
                    if r2.ret == -1 {
                        Err(Error::Os(r2.errno))
                    } else if r2.len != INT_LEN {
                        Err(Error::BadLength)
                    } else {
                        Ok(Some(Keepalive::span_spec(r2.value)))
                    },
                )
            }
        }),
{
    reveal_with_fuel(run, 3);
    let replies = seq![r1, r2];
    let course = run(Keepalive::start_spec(fd), replies);
    assert(replies.drop_first() =~= seq![r2]);
    assert(replies.drop_first().drop_first() =~= Seq::<Reply>::empty());
    let switch = get(fd, SockOpt::KeepAlive);
    if r1.ret != -1 && r1.len == INT_LEN && r1.value != 0 {
        assert(course.calls =~= seq![switch, get(fd, SockOpt::KeepIdle)]);
    } else {
        assert(course.calls =~= seq![switch]);
    }
}

/// The replies of a host that keeps what it is given to the reads of an
/// operation, when `written` are the calls that wrote before: the read at
/// each place is answered with what the write at the same place wrote.
pub open spec fn kept_replies(written: Seq<Syscall>, reads: Seq<Syscall>) -> Seq<Reply> {
    Seq::new(reads.len(), |i: int| kept(written[i], reads[i])->0)
}

/// Keepalive reads back as it was set. Take a host that takes every write
/// and keeps what it is given. When keepalive was switched off, it reads as
/// `None` after one read. When it was set to a span of at least one second,
/// and of no more seconds than the native integer holds, it reads as the
/// whole seconds of that span, after the reads of the switch and of the
/// idle time, which the host answers with what the two writes wrote.
pub proof fn lemma_keepalive_reads_back(fd: i32, keepalive: Option<Duration>, w1: Reply, w2: Reply)
    requires
        w1.ret != -1,
        w2.ret != -1,
        keepalive matches Some(d) ==> 0 < d.secs <= i32::MAX,
    ensures
        ({
            let set = run(SetKeepalive::start_spec(fd, keepalive), seq![w1, w2]);
            let switch = get(fd, SockOpt::KeepAlive);
            let idle = get(fd, SockOpt::KeepIdle);
            match keepalive {
                None => {
                    let read = run(
                        Keepalive::start_spec(fd),
                        kept_replies(set.calls, seq![switch]),
                    );
                    &&& set.outcome == Some(Ok::<(), Error>(()))
                    &&& set.calls.len() == 1
                    &&& read.calls == seq![switch]
                    &&& read.outcome == Some(Ok::<Option<Duration>, Error>(None))
                },
                Some(d) => {
                    let read = run(
                        Keepalive::start_spec(fd),
                        kept_replies(set.calls, seq![switch, idle]),
                    );
                    &&& set.outcome == Some(Ok::<(), Error>(()))
                    &&& set.calls.len() == 2
                    &&& read.calls == seq![switch, idle]
                    &&& read.outcome == Some(
                        Ok::<Option<Duration>, Error>(Some(Duration { secs: d.secs, nanos: 0 })),
                    )
                },
            }
        }),
{
    lemma_set_keepalive_course(fd, keepalive, w1, w2);
    let set = run(SetKeepalive::start_spec(fd, keepalive), seq![w1, w2]);
    let switch = get(fd, SockOpt::KeepAlive);
    let idle = get(fd, SockOpt::KeepIdle);
    match keepalive {
        None => {
            let replies = kept_replies(set.calls, seq![switch]);
            let r1 = replies[0];
            assert(r1 == Reply { ret: 0, errno: 0, value: 0, len: INT_LEN });
            reveal_with_fuel(run, 3);
            assert(replies.drop_first() =~= Seq::<Reply>::empty());
        },
        Some(d) => {
            let secs: u64 = d.secs;
            assert(0 < secs <= 0x7fff_ffff ==> ((secs as i32) as u64) == secs && (secs as i32) != 0)
                by (bit_vector);
            let replies = kept_replies(set.calls, seq![switch, idle]);
            assert(replies =~= seq![replies[0], replies[1]]);
            assert(replies[0] == Reply { ret: 0, errno: 0, value: 1, len: INT_LEN });
            assert(replies[1] == Reply {
                ret: 0,
                errno: 0,
                value: SetKeepalive::idle_spec(d),
                len: INT_LEN,
            });
            lemma_keepalive_course(fd, replies[0], replies[1]);
        },
    }
}

/// The switches of the library read back as they were set, each by its
/// name: when the host keeps what it is given, no-delay, broadcast, the
/// multicast loop of either family and only-v6 read as on after they were
/// switched on and as off after they were switched off.
pub proof fn lemma_switches_read_back(fd: i32, on: bool)
    ensures
        read_flag_spec(kept(set_flag(fd, SockOpt::NoDelay, on), get(fd, SockOpt::NoDelay))->0) == Ok::<
            bool,
            Error,
        >(on),
        read_flag_spec(kept(set_flag(fd, SockOpt::Broadcast, on), get(fd, SockOpt::Broadcast))->0)
            == Ok::<bool, Error>(on),
        read_flag_spec(
            kept(set_flag(fd, SockOpt::MulticastLoopV4, on), get(fd, SockOpt::MulticastLoopV4))->0,
        ) == Ok::<bool, Error>(on),
        read_flag_spec(
            kept(set_flag(fd, SockOpt::MulticastLoopV6, on), get(fd, SockOpt::MulticastLoopV6))->0,
        ) == Ok::<bool, Error>(on),
        read_flag_spec(kept(set_flag(fd, SockOpt::V6Only, on), get(fd, SockOpt::V6Only))->0) == Ok::<
            bool,
            Error,
        >(on),
{
    lemma_flag_reads_back(fd, SockOpt::NoDelay, on);
    lemma_flag_reads_back(fd, SockOpt::Broadcast, on);
    lemma_flag_reads_back(fd, SockOpt::MulticastLoopV4, on);
    lemma_flag_reads_back(fd, SockOpt::MulticastLoopV6, on);
    lemma_flag_reads_back(fd, SockOpt::V6Only, on);
}

/// Something that stands for one native descriptor.
pub trait AsSock {
    /// The descriptor.
    spec fn sock(&self) -> i32;

    /// The descriptor.
    fn as_sock(&self) -> (fd: i32)
        ensures
            fd == self.sock(),
    ;
}

impl AsSock for TcpStream {
    open spec fn sock(&self) -> i32 {
        self.fd
    }

    fn as_sock(&self) -> (fd: i32) {
        self.fd
    }
}

impl AsSock for TcpListener {
    open spec fn sock(&self) -> i32 {
        self.fd
    }

    fn as_sock(&self) -> (fd: i32) {
        self.fd
    }
}

impl AsSock for UdpSocket {
    open spec fn sock(&self) -> i32 {
        self.fd
    }

    fn as_sock(&self) -> (fd: i32) {
        self.fd
    }
}

/// The options of a connected stream. Each accessor gives the one call, or
/// for keepalive the operation, that reads or writes the option.
pub trait TcpStreamExt: AsSock {
    /// Switches the gathering of small segments off (`true`) or on.
    fn set_nodelay(&self, nodelay: bool) -> (call: Syscall)
        ensures
            call == set_flag(self.sock(), SockOpt::NoDelay, nodelay),
    ;

    /// Reads whether small segments are sent at once. The reply goes to
    /// [`read_flag`].
    fn nodelay(&self) -> (call: Syscall)
        ensures
            call == get(self.sock(), SockOpt::NoDelay),
    ;

    /// Sets the idle time after which the connection is probed, or switches
    /// probing off.
    fn set_keepalive(&self, keepalive: Option<Duration>) -> (first: Step<SetKeepalive, ()>)
        ensures
            first == SetKeepalive::start_spec(self.sock(), keepalive),
    ;

    /// Reads the idle time after which the connection is probed; `None` if
    /// it is not probed.
    fn keepalive(&self) -> (first: Step<Keepalive, Option<Duration>>)
        ensures
            first == Keepalive::start_spec(self.sock()),
    ;

    /// Sets the longest wait of a read; `None` for no limit.
    fn set_read_timeout(&self, val: Option<Duration>) -> (call: Syscall)
        ensures
            call == set_timeout(self.sock(), SockOpt::RcvTimeo, val),
    ;

    /// Reads the longest wait of a read. The reply goes to [`read_timeout`].
    fn read_timeout(&self) -> (call: Syscall)
        ensures
            call == get(self.sock(), SockOpt::RcvTimeo),
    ;

    /// Sets the longest wait of a write; `None` for no limit.
    fn set_write_timeout(&self, val: Option<Duration>) -> (call: Syscall)
        ensures
            call == set_timeout(self.sock(), SockOpt::SndTimeo, val),
    ;

    /// Reads the longest wait of a write. The reply goes to
    /// [`read_timeout`].
    fn write_timeout(&self) -> (call: Syscall)
        ensures
            call == get(self.sock(), SockOpt::SndTimeo),
    ;

    /// Sets the number of hops that a packet may take.
    fn set_ttl(&self, ttl: u32) -> (call: Syscall)
        ensures
            call == set_count(self.sock(), SockOpt::Ttl, ttl),
    ;

    /// Reads the number of hops that a packet may take. The reply goes to
    /// [`read_count`].
    fn ttl(&self) -> (call: Syscall)
        ensures
            call == get(self.sock(), SockOpt::Ttl),
    ;

    /// Keeps the socket from carrying IPv4 traffic (`true`) or lets it.
    fn set_only_v6(&self, only_v6: bool) -> (call: Syscall)
        ensures
            call == set_flag(self.sock(), SockOpt::V6Only, only_v6),
    ;

    /// Reads whether the socket is kept from carrying IPv4 traffic. The
    /// reply goes to [`read_flag`].
    fn only_v6(&self) -> (call: Syscall)
        ensures
            call == get(self.sock(), SockOpt::V6Only),
    ;
}

/// The options of a listener. Each accessor gives the one call that reads or
/// writes the option.
pub trait TcpListenerExt: AsSock {
    /// Sets the number of hops that a packet may take.
    fn set_ttl(&self, ttl: u32) -> (call: Syscall)
        ensures
            call == set_count(self.sock(), SockOpt::Ttl, ttl),
    ;

    /// Reads the number of hops that a packet may take. The reply goes to
    /// [`read_count`].
    fn ttl(&self) -> (call: Syscall)
        ensures
            call == get(self.sock(), SockOpt::Ttl),
    ;

    /// Keeps the socket from carrying IPv4 traffic (`true`) or lets it.
    fn set_only_v6(&self, only_v6: bool) -> (call: Syscall)
        ensures
            call == set_flag(self.sock(), SockOpt::V6Only, only_v6),
    ;

    /// Reads whether the socket is kept from carrying IPv4 traffic. The
    /// reply goes to [`read_flag`].
    fn only_v6(&self) -> (call: Syscall)
        ensures
            call == get(self.sock(), SockOpt::V6Only),
    ;
}

/// The options of a datagram socket. Each accessor gives the one call that
/// reads or writes the option.
pub trait UdpSocketExt: AsSock {
    /// Allows or forbids sending to a broadcast address.
    fn set_broadcast(&self, broadcast: bool) -> (call: Syscall)
        ensures
            call == set_flag(self.sock(), SockOpt::Broadcast, broadcast),
    ;

    /// Reads whether sending to a broadcast address is allowed. The reply
    /// goes to [`read_flag`].
    fn broadcast(&self) -> (call: Syscall)
        ensures
            call == get(self.sock(), SockOpt::Broadcast),
    ;

    /// Switches the delivery of IPv4 multicast packets to the sender on or
    /// off.
    fn set_multicast_loop_v4(&self, multicast_loop_v4: bool) -> (call: Syscall)
        ensures
            call == set_flag(self.sock(), SockOpt::MulticastLoopV4, multicast_loop_v4),
    ;

    /// Reads whether IPv4 multicast packets are delivered to the sender. The
    /// reply goes to [`read_flag`].
    fn multicast_loop_v4(&self) -> (call: Syscall)
        ensures
            call == get(self.sock(), SockOpt::MulticastLoopV4),
    ;

    /// Sets the number of hops that an IPv4 multicast packet may take.
    fn set_multicast_ttl_v4(&self, multicast_ttl_v4: u32) -> (call: Syscall)
        ensures
            call == set_count(self.sock(), SockOpt::MulticastTtlV4, multicast_ttl_v4),
    ;

    /// Reads the number of hops that an IPv4 multicast packet may take. The
    /// reply goes to [`read_count`].
    fn multicast_ttl_v4(&self) -> (call: Syscall)
        ensures
            call == get(self.sock(), SockOpt::MulticastTtlV4),
    ;

    /// Switches the delivery of IPv6 multicast packets to the sender on or
    /// off.
    fn set_multicast_loop_v6(&self, multicast_loop_v6: bool) -> (call: Syscall)
        ensures
            call == set_flag(self.sock(), SockOpt::MulticastLoopV6, multicast_loop_v6),
    ;

    /// Reads whether IPv6 multicast packets are delivered to the sender. The
    /// reply goes to [`read_flag`].
    fn multicast_loop_v6(&self) -> (call: Syscall)
        ensures
            call == get(self.sock(), SockOpt::MulticastLoopV6),
    ;

    /// Sets the number of hops that a packet may take.
    fn set_ttl(&self, ttl: u32) -> (call: Syscall)
        ensures
            call == set_count(self.sock(), SockOpt::Ttl, ttl),
    ;

    /// Reads the number of hops that a packet may take. The reply goes to
    /// [`read_count`].
    fn ttl(&self) -> (call: Syscall)
        ensures
            call == get(self.sock(), SockOpt::Ttl),
    ;

    /// Keeps the socket from carrying IPv4 traffic (`true`) or lets it.
    fn set_only_v6(&self, only_v6: bool) -> (call: Syscall)
        ensures
            call == set_flag(self.sock(), SockOpt::V6Only, only_v6),
    ;

    /// Reads whether the socket is kept from carrying IPv4 traffic. The
    /// reply goes to [`read_flag`].
    fn only_v6(&self) -> (call: Syscall)
        ensures
            call == get(self.sock(), SockOpt::V6Only),
    ;

    /// Joins the IPv4 group `multiaddr` on the local interface with the
    /// address `interface`.
    fn join_multicast_v4(&self, multiaddr: &Ipv4Addr, interface: &Ipv4Addr) -> (call: Syscall)
        ensures
            is_membership_v4(call, self.sock(), SockOpt::AddMembershipV4, *multiaddr, *interface),
    ;

    /// Joins the IPv6 group `multiaddr` on the local interface with the
    /// index `interface`.
    fn join_multicast_v6(&self, multiaddr: &Ipv6Addr, interface: u32) -> (call: Syscall)
        ensures
            is_membership_v6(call, self.sock(), SockOpt::AddMembershipV6, *multiaddr, interface),
    ;

    /// Leaves the IPv4 group `multiaddr` on the local interface with the
    /// address `interface`.
    fn leave_multicast_v4(&self, multiaddr: &Ipv4Addr, interface: &Ipv4Addr) -> (call: Syscall)
        ensures
            is_membership_v4(call, self.sock(), SockOpt::DropMembershipV4, *multiaddr, *interface),
    ;

    /// Leaves the IPv6 group `multiaddr` on the local interface with the
    /// index `interface`.
    fn leave_multicast_v6(&self, multiaddr: &Ipv6Addr, interface: u32) -> (call: Syscall)
        ensures
            is_membership_v6(call, self.sock(), SockOpt::DropMembershipV6, *multiaddr, interface),
    ;
}

/// The call that writes an option of the socket in a builder in state
/// `builder`: a finished builder has no socket to write to.
pub open spec fn builder_set(builder: Option<i32>, opt: SockOpt, value: i32) -> Result<Syscall, Error> {
    match builder {
        Some(fd) => Ok(set_int(fd, opt, value)),
        None => Err(Error::BuilderFinished),
    }
}

/// The options that a stream socket takes while it is in its builder.
pub trait TcpBuilderExt: View<V = Option<i32>> {
    /// Sets the number of hops that a packet may take.
    fn ttl(&self, ttl: u32) -> (r: Result<Syscall, Error>)
        ensures
            r == builder_set(self@, SockOpt::Ttl, count2int_spec(ttl)),
    ;

    /// Keeps the socket from carrying IPv4 traffic (`true`) or lets it.
    fn only_v6(&self, only_v6: bool) -> (r: Result<Syscall, Error>)
        ensures
            r == builder_set(self@, SockOpt::V6Only, bool2int_spec(only_v6)),
    ;
}

/// The options that a datagram socket takes while it is in its builder.
pub trait UdpBuilderExt: View<V = Option<i32>> {
    /// Sets the number of hops that a packet may take.
    fn ttl(&self, ttl: u32) -> (r: Result<Syscall, Error>)
        ensures
            r == builder_set(self@, SockOpt::Ttl, count2int_spec(ttl)),
    ;

    /// Keeps the socket from carrying IPv4 traffic (`true`) or lets it.
    fn only_v6(&self, only_v6: bool) -> (r: Result<Syscall, Error>)
        ensures
            r == builder_set(self@, SockOpt::V6Only, bool2int_spec(only_v6)),
    ;
}

/// The call that switches the option `opt` of the socket `fd` on or off.
fn flag_call(fd: i32, opt: SockOpt, on: bool) -> (call: Syscall)
    ensures
        call == set_flag(fd, opt, on),
{
    Syscall::SetOpt { fd, opt, payload: Payload::Int(bool2int(on)) }
}

/// The call that writes the count `n` to the option `opt` of the socket
/// `fd`.
fn count_call(fd: i32, opt: SockOpt, n: u32) -> (call: Syscall)
    ensures
        call == set_count(fd, opt, n),
{
    Syscall::SetOpt { fd, opt, payload: Payload::Int(count2int(n)) }
}

/// The call that writes a timeout to the option `opt` of the socket `fd`.
fn timeout_call(fd: i32, opt: SockOpt, dur: Option<Duration>) -> (call: Syscall)
    ensures
        call == set_timeout(fd, opt, dur),
{
    Syscall::SetOpt { fd, opt, payload: Payload::Time(dur2timeout(dur)) }
}

/// The call that joins or leaves an IPv4 group.
fn membership_v4_call(fd: i32, opt: SockOpt, multiaddr: &Ipv4Addr, interface: &Ipv4Addr) -> (call: Syscall)
    ensures
        is_membership_v4(call, fd, opt, *multiaddr, *interface),
{
    let mreq = IpMreq { imr_multiaddr: ip2in_addr(multiaddr), imr_interface: ip2in_addr(interface) };
    Syscall::SetOpt { fd, opt, payload: Payload::Membership(mreq) }
}

/// The call that joins or leaves an IPv6 group.
fn membership_v6_call(fd: i32, opt: SockOpt, multiaddr: &Ipv6Addr, interface: u32) -> (call: Syscall)
    ensures
        is_membership_v6(call, fd, opt, *multiaddr, interface),
{
    let mreq = Ipv6Mreq { ipv6mr_multiaddr: ip2in6_addr(multiaddr), ipv6mr_interface: interface };
    Syscall::SetOpt { fd, opt, payload: Payload::Membership6(mreq) }
}

impl TcpStreamExt for TcpStream {
    fn set_nodelay(&self, nodelay: bool) -> (call: Syscall) {
        flag_call(self.as_sock(), SockOpt::NoDelay, nodelay)
    }

    fn nodelay(&self) -> (call: Syscall) {
        Syscall::GetOpt { fd: self.as_sock(), opt: SockOpt::NoDelay }
    }

    fn set_keepalive(&self, keepalive: Option<Duration>) -> (first: Step<SetKeepalive, ()>) {
        let fd = self.as_sock();
        Step::Call(
            SetKeepalive { fd, keepalive, stage: KeepaliveStage::Switch },
            flag_call(fd, SockOpt::KeepAlive, keepalive.is_some()),
        )
    }

    fn keepalive(&self) -> (first: Step<Keepalive, Option<Duration>>) {
        let fd = self.as_sock();
        Step::Call(
            Keepalive { fd, stage: KeepaliveStage::Switch },
            Syscall::GetOpt { fd, opt: SockOpt::KeepAlive },
        )
    }

    fn set_read_timeout(&self, val: Option<Duration>) -> (call: Syscall) {
        timeout_call(self.as_sock(), SockOpt::RcvTimeo, val)
    }

    fn read_timeout(&self) -> (call: Syscall) {
        Syscall::GetOpt { fd: self.as_sock(), opt: SockOpt::RcvTimeo }
    }

    fn set_write_timeout(&self, val: Option<Duration>) -> (call: Syscall) {
        timeout_call(self.as_sock(), SockOpt::SndTimeo, val)
    }

    fn write_timeout(&self) -> (call: Syscall) {
        Syscall::GetOpt { fd: self.as_sock(), opt: SockOpt::SndTimeo }
    }

    fn set_ttl(&self, ttl: u32) -> (call: Syscall) {
        count_call(self.as_sock(), SockOpt::Ttl, ttl)
    }

    fn ttl(&self) -> (call: Syscall) {
        Syscall::GetOpt { fd: self.as_sock(), opt: SockOpt::Ttl }
    }

    fn set_only_v6(&self, only_v6: bool) -> (call: Syscall) {
        flag_call(self.as_sock(), SockOpt::V6Only, only_v6)
    }

    fn only_v6(&self) -> (call: Syscall) {
        Syscall::GetOpt { fd: self.as_sock(), opt: SockOpt::V6Only }
    }
}

impl TcpListenerExt for TcpListener {
    fn set_ttl(&self, ttl: u32) -> (call: Syscall) {
        count_call(self.as_sock(), SockOpt::Ttl, ttl)
    }

    fn ttl(&self) -> (call: Syscall) {
        Syscall::GetOpt { fd: self.as_sock(), opt: SockOpt::Ttl }
    }

    fn set_only_v6(&self, only_v6: bool) -> (call: Syscall) {
        flag_call(self.as_sock(), SockOpt::V6Only, only_v6)
    }

    fn only_v6(&self) -> (call: Syscall) {
        Syscall::GetOpt { fd: self.as_sock(), opt: SockOpt::V6Only }
    }
}

impl UdpSocketExt for UdpSocket {
    fn set_broadcast(&self, broadcast: bool) -> (call: Syscall) {
        flag_call(self.as_sock(), SockOpt::Broadcast, broadcast)
    }

    fn broadcast(&self) -> (call: Syscall) {
        Syscall::GetOpt { fd: self.as_sock(), opt: SockOpt::Broadcast }
    }

    fn set_multicast_loop_v4(&self, multicast_loop_v4: bool) -> (call: Syscall) {
        flag_call(self.as_sock(), SockOpt::MulticastLoopV4, multicast_loop_v4)
    }

    fn multicast_loop_v4(&self) -> (call: Syscall) {
        Syscall::GetOpt { fd: self.as_sock(), opt: SockOpt::MulticastLoopV4 }
    }

    fn set_multicast_ttl_v4(&self, multicast_ttl_v4: u32) -> (call: Syscall) {
        count_call(self.as_sock(), SockOpt::MulticastTtlV4, multicast_ttl_v4)
    }

    fn multicast_ttl_v4(&self) -> (call: Syscall) {
        Syscall::GetOpt { fd: self.as_sock(), opt: SockOpt::MulticastTtlV4 }
    }

    fn set_multicast_loop_v6(&self, multicast_loop_v6: bool) -> (call: Syscall) {
        flag_call(self.as_sock(), SockOpt::MulticastLoopV6, multicast_loop_v6)
    }

    fn multicast_loop_v6(&self) -> (call: Syscall) {
        Syscall::GetOpt { fd: self.as_sock(), opt: SockOpt::MulticastLoopV6 }
    }

    fn set_ttl(&self, ttl: u32) -> (call: Syscall) {
        count_call(self.as_sock(), SockOpt::Ttl, ttl)
    }

    fn ttl(&self) -> (call: Syscall) {
        Syscall::GetOpt { fd: self.as_sock(), opt: SockOpt::Ttl }
    }

    fn set_only_v6(&self, only_v6: bool) -> (call: Syscall) {
        flag_call(self.as_sock(), SockOpt::V6Only, only_v6)
    }

    fn only_v6(&self) -> (call: Syscall) {
        Syscall::GetOpt { fd: self.as_sock(), opt: SockOpt::V6Only }
    }

    fn join_multicast_v4(&self, multiaddr: &Ipv4Addr, interface: &Ipv4Addr) -> (call: Syscall) {
        membership_v4_call(self.as_sock(), SockOpt::AddMembershipV4, multiaddr, interface)
    }

    fn join_multicast_v6(&self, multiaddr: &Ipv6Addr, interface: u32) -> (call: Syscall) {
        membership_v6_call(self.as_sock(), SockOpt::AddMembershipV6, multiaddr, interface)
    }

    fn leave_multicast_v4(&self, multiaddr: &Ipv4Addr, interface: &Ipv4Addr) -> (call: Syscall) {
        membership_v4_call(self.as_sock(), SockOpt::DropMembershipV4, multiaddr, interface)
    }

    fn leave_multicast_v6(&self, multiaddr: &Ipv6Addr, interface: u32) -> (call: Syscall) {
        membership_v6_call(self.as_sock(), SockOpt::DropMembershipV6, multiaddr, interface)
    }
}

impl TcpBuilderExt for TcpBuilder {
    fn ttl(&self, ttl: u32) -> (r: Result<Syscall, Error>) {
        match self.descriptor() {
            Some(fd) => Ok(count_call(fd, SockOpt::Ttl, ttl)),
            None => Err(Error::BuilderFinished),
        }
    }

    fn only_v6(&self, only_v6: bool) -> (r: Result<Syscall, Error>) {
        match self.descriptor() {
            Some(fd) => Ok(flag_call(fd, SockOpt::V6Only, only_v6)),
            None => Err(Error::BuilderFinished),
        }
    }
}

impl UdpBuilderExt for UdpBuilder {
    fn ttl(&self, ttl: u32) -> (r: Result<Syscall, Error>) {
        match self.descriptor() {
            Some(fd) => Ok(count_call(fd, SockOpt::Ttl, ttl)),
            None => Err(Error::BuilderFinished),
        }
    }

    fn only_v6(&self, only_v6: bool) -> (r: Result<Syscall, Error>) {
        match self.descriptor() {
            Some(fd) => Ok(flag_call(fd, SockOpt::V6Only, only_v6)),
            None => Err(Error::BuilderFinished),
        }
    }
}

} // verus!
