//! Conventions of hosts with the POSIX socket interface.

use vstd::prelude::*;
use crate::duration::Duration;
use crate::sys::Timeval;

verus! {

/// The timeout that stands for `dur` in a socket option: its whole seconds,
/// and no timeout at all for `None`.
pub open spec fn dur2timeout_spec(dur: Option<Duration>) -> Timeval {
    match dur {
        Some(d) => Timeval { tv_sec: d.secs as i64, tv_usec: 0 },
        None => Timeval { tv_sec: 0, tv_usec: 0 },
    }
}

/// The span that a timeout read from a socket option stands for. The zero
/// timeout means that none is set.
pub open spec fn timeout2dur_spec(tv: Timeval) -> Option<Duration> {
    if tv.tv_sec == 0 && tv.tv_usec == 0 {
        None
    } else {
        Some(Duration { secs: tv.tv_sec as u64, nanos: 0 })
    }
}

/// Turns a span into the timeout that is written to a socket option. The
/// part below one second is dropped; `None` becomes the zero timeout, which
/// the host takes for "no timeout". Seconds beyond what the host's type holds
/// wrap around, as a conversion between integer types does.
pub fn dur2timeout(dur: Option<Duration>) -> (tv: Timeval)
    ensures
        tv == dur2timeout_spec(dur),
        tv.tv_usec == 0,
        dur matches Some(d) ==> tv.tv_sec == if d.secs <= i64::MAX {
            d.secs as int
        } else {
            d.secs - 0x1_0000_0000_0000_0000
        },
        dur is None ==> tv.tv_sec == 0,
{
    match dur {
        Some(d) => {
            let secs: u64 = d.secs;
            assert(secs <= 0x7fff_ffff_ffff_ffff ==> secs as i64 == secs) by (bit_vector);
            assert(secs > 0x7fff_ffff_ffff_ffff ==> secs as i64 == secs - 0x1_0000_0000_0000_0000)
                by (bit_vector);
            Timeval { tv_sec: #[verifier::truncate] (secs as i64), tv_usec: 0 }
        },
        None => Timeval { tv_sec: 0, tv_usec: 0 },
    }
}

/// Turns a timeout read from a socket option into a span of whole seconds.
/// The zero timeout reads as `None`: a timeout that was set to zero cannot
/// be told from one that was never set. Microseconds are dropped, and a
/// negative number of seconds wraps around.
pub fn timeout2dur(tv: Timeval) -> (dur: Option<Duration>)
    ensures
        dur == timeout2dur_spec(tv),
        dur is None <==> tv.tv_sec == 0 && tv.tv_usec == 0,
        dur matches Some(d) ==> d.nanos == 0 && d.secs == if tv.tv_sec >= 0 {
            tv.tv_sec as int
        } else {
            tv.tv_sec + 0x1_0000_0000_0000_0000
        },
{
    if tv.tv_sec == 0 && tv.tv_usec == 0 {
        None
    } else {
        let secs: i64 = tv.tv_sec;
        assert(secs >= 0 ==> secs as u64 == secs) by (bit_vector);
        assert(secs < 0 ==> secs as u64 == secs + 0x1_0000_0000_0000_0000) by (bit_vector);
        Some(Duration { secs: #[verifier::truncate] (secs as u64), nanos: 0 })
    }
}

/// What a timeout reads back as after it was written: the whole seconds of
/// the span, and `None` for a span below one second as for no span at all.
pub proof fn lemma_timeout_round_trip(dur: Option<Duration>)
    ensures
        timeout2dur_spec(dur2timeout_spec(dur)) == match dur {
            Some(d) => if d.secs == 0 {
                None
            } else {
                Some(Duration { secs: d.secs, nanos: 0 })
            },
            None => None,
        },
{
    match dur {
        Some(d) => {
            let secs: u64 = d.secs;
            assert((secs as i64) as u64 == secs && ((secs as i64) == 0 <==> secs == 0))
                by (bit_vector);
        },
        None => {},
    }
}

/// The first argument of the host's wait for readiness on the one descriptor
/// `fd`: one more than the descriptor. There is none for the largest number
/// that the type holds.
pub fn nfds(fd: i32) -> (n: Option<i32>)
    ensures
        n == if fd < i32::MAX {
            Some((fd + 1) as i32)
        } else {
            None
        },
{
    fd.checked_add(1)
}

} // verus!
