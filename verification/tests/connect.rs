use net2::addr::{Ipv4Addr, Ipv6Addr, SocketAddr};
use net2::error::{Error, ErrorKind};
use net2::socket::{ConnectTimeout, Creation, NewSocket, Socket, Stage};
use net2::sys::{replay, Family, Operation, Reply, SockType, Step, Syscall, Timeval};
use net2::tcp::{Connect, TcpListener, TcpStream};
use net2::udp::UdpSocket;
use net2::{one_addr, TcpBuilder, UdpBuilder};

const IN_PROGRESS: i32 = 115;
const REFUSED: i32 = 111;
const UNREACHABLE: i32 = 101;

fn v4(a: u8, b: u8, c: u8, d: u8, port: u16) -> SocketAddr {
    SocketAddr::v4(Ipv4Addr::new(a, b, c, d), port)
}

fn on() -> Syscall {
    Syscall::SetNonblocking { fd: 3, nonblocking: true }
}

fn off() -> Syscall {
    Syscall::SetNonblocking { fd: 3, nonblocking: false }
}

#[test]
fn new_socket_marks_the_descriptor() {
    let (calls, made) = replay(
        Socket::new(Family::Inet6, SockType::Dgram),
        &[Reply::ok(11), Reply::ok(0)],
    );
    assert_eq!(
        calls,
        vec![
            Syscall::Socket { family: Family::Inet6, ty: SockType::Dgram },
            Syscall::NoInherit { fd: 11 },
        ]
    );
    assert_eq!(made, Some(Ok(Socket { fd: 11 })));
}

#[test]
fn new_socket_is_handed_out_though_the_mark_failed() {
    let (_, made) = replay(
        Socket::new(Family::Inet, SockType::Stream),
        &[Reply::ok(4), Reply::failed(25)],
    );
    assert_eq!(made, Some(Ok(Socket { fd: 4 })));
}

#[test]
fn new_socket_failure_is_the_hosts_error() {
    let (calls, made) = replay(
        Socket::new(Family::Inet, SockType::Stream),
        &[Reply::failed(24), Reply::ok(0)],
    );
    assert_eq!(calls.len(), 1);
    assert_eq!(made, Some(Err(Error::Os(24))));
}

#[test]
fn new_socket_waits_for_its_replies() {
    let (calls, made) = replay(Socket::new(Family::Inet, SockType::Stream), &[]);
    assert_eq!(calls, vec![Syscall::Socket { family: Family::Inet, ty: SockType::Stream }]);
    assert_eq!(made, None);
    let op = NewSocket { family: Family::Inet, ty: SockType::Stream, stage: Creation::Creating };
    assert_eq!(
        op.resume(Reply::ok(9)),
        Step::Call(
            NewSocket {
                family: Family::Inet,
                ty: SockType::Stream,
                stage: Creation::Flagging { fd: 9 }
            },
            Syscall::NoInherit { fd: 9 }
        )
    );
}

#[test]
fn builders_start_sockets_of_their_family_and_kind() {
    let family_and_kind = |step: Step<NewSocket, Socket>| match step {
        Step::Call(_, Syscall::Socket { family, ty }) => (family, ty),
        other => panic!("expected the creation of a socket, found {:?}", other),
    };
    assert_eq!(family_and_kind(TcpBuilder::new_v4()), (Family::Inet, SockType::Stream));
    assert_eq!(family_and_kind(TcpBuilder::new_v6()), (Family::Inet6, SockType::Stream));
    assert_eq!(family_and_kind(UdpBuilder::new_v4()), (Family::Inet, SockType::Dgram));
    assert_eq!(family_and_kind(UdpBuilder::new_v6()), (Family::Inet6, SockType::Dgram));
}

#[test]
fn socket_calls_name_the_descriptor() {
    let sock = Socket::from_inner(8);
    let addr = v4(10, 0, 0, 1, 80);
    assert_eq!(sock.raw(), 8);
    assert_eq!(sock.bind(&addr), Syscall::Bind { fd: 8, addr });
    assert_eq!(sock.listen(-3), Syscall::Listen { fd: 8, backlog: -3 });
    assert_eq!(sock.connect(&addr), Syscall::Connect { fd: 8, addr });
    assert_eq!(sock.close(), Syscall::Close { fd: 8 });
}

#[test]
fn socket_hands_its_descriptor_over() {
    assert_eq!(Socket::from_inner(8).into_fd(), 8);
    assert_eq!(Socket::from_inner(8).into_tcp_listener(), TcpListener { fd: 8 });
    assert_eq!(Socket::from_inner(8).into_tcp_stream(), TcpStream { fd: 8 });
    assert_eq!(Socket::from_inner(8).into_udp_socket(), UdpSocket { fd: 8 });
}

#[test]
fn one_addr_takes_exactly_one() {
    let a = v4(127, 0, 0, 1, 1);
    let b = SocketAddr::v6(Ipv6Addr::new(0, 0, 0, 0, 0, 0, 0, 1), 2);
    assert_eq!(one_addr(&[]), Err(Error::NoAddress));
    assert_eq!(one_addr(&[a]), Ok(a));
    assert_eq!(one_addr(&[b]), Ok(b));
    assert_eq!(one_addr(&[a, b]), Err(Error::ManyAddresses));
    assert_eq!(one_addr(&[a, a, a]), Err(Error::ManyAddresses));
}

#[test]
fn timed_connect_that_cannot_unblock_ends_at_once() {
    let sock = Socket::from_inner(3);
    let first = sock.connect_w_timeout(&v4(10, 0, 0, 1, 80), 250, IN_PROGRESS);
    let (calls, outcome) = replay(first, &[Reply::failed(9), Reply::ok(0), Reply::ok(1), Reply::ok(0)]);
    assert_eq!(calls, vec![on()]);
    assert_eq!(outcome, Some(Err(Error::Os(9))));
}

#[test]
fn timed_connect_restores_blocking_after_an_early_failure() {
    let sock = Socket::from_inner(3);
    let addr = v4(10, 0, 0, 1, 80);
    let first = sock.connect_w_timeout(&addr, 250, IN_PROGRESS);
    let (calls, outcome) = replay(first, &[Reply::ok(0), Reply::failed(REFUSED), Reply::ok(0)]);
    assert_eq!(calls, vec![on(), Syscall::Connect { fd: 3, addr }, off()]);
    assert_eq!(outcome, Some(Err(Error::Os(REFUSED))));
}

#[test]
fn timed_connect_reports_the_connect_failure_though_restoring_failed() {
    let sock = Socket::from_inner(3);
    let first = sock.connect_w_timeout(&v4(10, 0, 0, 1, 80), 250, IN_PROGRESS);
    let (calls, outcome) = replay(first, &[Reply::ok(0), Reply::failed(REFUSED), Reply::failed(9)]);
    assert_eq!(calls.last(), Some(&off()));
    assert_eq!(outcome, Some(Err(Error::Os(REFUSED))));
}

#[test]
fn timed_connect_waits_after_an_immediate_success() {
    let sock = Socket::from_inner(3);
    let addr = v4(10, 0, 0, 1, 80);
    let first = sock.connect_w_timeout(&addr, 2500, IN_PROGRESS);
    let (calls, outcome) = replay(first, &[Reply::ok(0), Reply::ok(0), Reply::ok(2), Reply::ok(0)]);
    assert_eq!(
        calls,
        vec![
            on(),
            Syscall::Connect { fd: 3, addr },
            Syscall::Wait { fd: 3, readable: true, writable: true, timeout: Timeval { tv_sec: 2, tv_usec: 500_000 } },
            off(),
        ]
    );
    assert_eq!(outcome, Some(Ok(())));
}

#[test]
fn timed_connect_restores_blocking_after_a_failed_wait() {
    let sock = Socket::from_inner(3);
    let first = sock.connect_w_timeout(&v4(10, 0, 0, 1, 80), 100, IN_PROGRESS);
    let host = [Reply::ok(0), Reply::failed(IN_PROGRESS), Reply::failed(4), Reply::failed(9)];
    let (calls, outcome) = replay(first, &host);
    assert_eq!(calls.len(), 4);
    assert_eq!(calls[3], off());
    assert_eq!(outcome, Some(Err(Error::Os(4))));
}

#[test]
fn timed_connect_reports_a_failure_to_restore_before_a_timeout() {
    let sock = Socket::from_inner(3);
    let first = sock.connect_w_timeout(&v4(10, 0, 0, 1, 80), 100, IN_PROGRESS);
    let host = [Reply::ok(0), Reply::failed(IN_PROGRESS), Reply::ok(0), Reply::failed(9)];
    let (_, outcome) = replay(first, &host);
    assert_eq!(outcome, Some(Err(Error::Os(9))));
    let first = sock.connect_w_timeout(&v4(10, 0, 0, 1, 80), 100, IN_PROGRESS);
    let host = [Reply::ok(0), Reply::failed(IN_PROGRESS), Reply::ok(1), Reply::failed(9)];
    let (_, outcome) = replay(first, &host);
    assert_eq!(outcome, Some(Err(Error::Os(9))));
}

#[test]
fn timed_connect_goes_stage_by_stage() {
    let addr = v4(10, 0, 0, 1, 80);
    let timeout = Timeval { tv_sec: 0, tv_usec: 100_000 };
    let at = |stage: Stage| ConnectTimeout { fd: 3, addr, timeout, in_progress: IN_PROGRESS, stage };
    assert_eq!(
        Socket::from_inner(3).connect_w_timeout(&addr, 100, IN_PROGRESS),
        Step::Call(at(Stage::Unblocking), on())
    );
    assert_eq!(
        at(Stage::Unblocking).resume(Reply::ok(0)),
        Step::Call(at(Stage::Connecting), Syscall::Connect { fd: 3, addr })
    );
    assert_eq!(
        at(Stage::Connecting).resume(Reply::failed(IN_PROGRESS)),
        Step::Call(at(Stage::Waiting), Syscall::Wait { fd: 3, readable: true, writable: true, timeout })
    );
    assert_eq!(
        at(Stage::Waiting).resume(Reply::ok(0)),
        Step::Call(at(Stage::Restoring { outcome: Err(Error::TimedOut) }), off())
    );
    assert_eq!(
        at(Stage::Restoring { outcome: Err(Error::TimedOut) }).resume(Reply::ok(0)),
        Step::Done(Err(Error::TimedOut))
    );
    assert_eq!(at(Stage::Restoring { outcome: Ok(()) }).resume(Reply::ok(0)), Step::Done(Ok(())));
}

#[test]
fn connect_takes_the_second_address_when_the_first_fails() {
    let mut b = TcpBuilder::from_descriptor(3);
    let first = v4(10, 255, 255, 1, 9);
    let second = v4(127, 0, 0, 1, 8080);
    let step = b.connect(vec![first, second]);
    let (calls, outcome) = replay(step, &[Reply::failed(UNREACHABLE), Reply::ok(0)]);
    assert_eq!(
        calls,
        vec![Syscall::Connect { fd: 3, addr: first }, Syscall::Connect { fd: 3, addr: second }]
    );
    assert_eq!(outcome, Some(Ok(())));
    assert_eq!(b.finish_stream(outcome.unwrap()), Ok(TcpStream { fd: 3 }));
}

#[test]
fn connect_stops_at_the_first_success() {
    let b = TcpBuilder::from_descriptor(3);
    let addrs = vec![v4(10, 0, 0, 1, 1), v4(10, 0, 0, 2, 2), v4(10, 0, 0, 3, 3)];
    let (calls, outcome) = replay(b.connect(addrs.clone()), &[Reply::ok(0), Reply::ok(0), Reply::ok(0)]);
    assert_eq!(calls, vec![Syscall::Connect { fd: 3, addr: addrs[0] }]);
    assert_eq!(outcome, Some(Ok(())));
}

#[test]
fn connect_reports_the_last_failure() {
    let mut b = TcpBuilder::from_descriptor(3);
    let addrs = vec![v4(10, 0, 0, 1, 1), v4(10, 0, 0, 2, 2), v4(10, 0, 0, 3, 3)];
    let host = [Reply::failed(UNREACHABLE), Reply::failed(REFUSED), Reply::failed(110)];
    let (calls, outcome) = replay(b.connect(addrs.clone()), &host);
    assert_eq!(calls.len(), 3);
    assert_eq!(calls[2], Syscall::Connect { fd: 3, addr: addrs[2] });
    assert_eq!(outcome, Some(Err(Error::Os(110))));
    assert_eq!(b.finish_stream(outcome.unwrap()), Err(Error::Os(110)));
    assert_eq!(b.descriptor(), Some(3));
}

#[test]
fn connect_without_addresses_makes_no_call() {
    let b = TcpBuilder::from_descriptor(3);
    let (calls, outcome) = replay(b.connect(Vec::new()), &[Reply::ok(0)]);
    assert!(calls.is_empty());
    assert_eq!(outcome, Some(Err(Error::NothingToConnect)));
    assert_eq!(Connect::start(3, Vec::new()), Step::Done(Err(Error::NothingToConnect)));
}

#[test]
fn connect_state_names_the_attempt_under_way() {
    let addrs = vec![v4(10, 0, 0, 1, 1), v4(10, 0, 0, 2, 2)];
    let op = Connect { fd: 3, addrs: addrs.clone(), next: 0 };
    assert_eq!(
        op.resume(Reply::failed(REFUSED)),
        Step::Call(
            Connect { fd: 3, addrs: addrs.clone(), next: 1 },
            Syscall::Connect { fd: 3, addr: addrs[1] }
        )
    );
    let last = Connect { fd: 3, addrs: addrs.clone(), next: 1 };
    assert_eq!(last.resume(Reply::failed(REFUSED)), Step::Done(Err(Error::Os(REFUSED))));
    let beyond = Connect { fd: 3, addrs, next: 7 };
    assert_eq!(beyond.resume(Reply::failed(REFUSED)), Step::Done(Err(Error::Os(REFUSED))));
}

#[test]
fn builder_is_used_once() {
    let mut b = TcpBuilder::from_descriptor(3);
    assert!(b.with_socket().is_ok());
    assert_eq!(b.listen(16), Ok(Syscall::Listen { fd: 3, backlog: 16 }));
    assert_eq!(b.finish_listener(Ok(())), Ok(TcpListener { fd: 3 }));

    let addr = v4(127, 0, 0, 1, 80);
    assert_eq!(b.listen(16), Err(Error::BuilderFinished));
    assert_eq!(b.bind(&[addr]), Err(Error::BuilderFinished));
    assert_eq!(b.bind(&[]), Err(Error::BuilderFinished));
    assert_eq!(b.connect(vec![addr]), Step::Done(Err(Error::BuilderFinished)));
    assert_eq!(
        b.connect_w_timeout(&[addr], 100, IN_PROGRESS),
        Step::Done(Err(Error::BuilderFinished))
    );
    assert_eq!(b.with_socket().err(), Some(Error::BuilderFinished));
    assert_eq!(b.finish_listener(Ok(())), Err(Error::BuilderFinished));
    assert_eq!(b.finish_stream(Ok(())), Err(Error::BuilderFinished));
    assert_eq!(b.finish_stream(Err(Error::TimedOut)), Err(Error::BuilderFinished));
}

#[test]
fn builder_refuses_connect_after_connect() {
    let mut b = TcpBuilder::from_descriptor(3);
    let addr = v4(127, 0, 0, 1, 80);
    let (_, outcome) = replay(b.connect(vec![addr]), &[Reply::ok(0)]);
    assert_eq!(b.finish_stream(outcome.unwrap()), Ok(TcpStream { fd: 3 }));
    assert_eq!(b.connect(vec![addr]), Step::Done(Err(Error::BuilderFinished)));
    assert_eq!(b.listen(1), Err(Error::BuilderFinished));
}

#[test]
fn builder_keeps_its_socket_after_a_failure() {
    let mut b = TcpBuilder::from_descriptor(3);
    assert_eq!(b.finish_listener(Reply::failed(98).outcome()), Err(Error::Os(98)));
    assert_eq!(b.descriptor(), Some(3));
    assert_eq!(b.listen(16), Ok(Syscall::Listen { fd: 3, backlog: 16 }));
    assert_eq!(b.finish_listener(Ok(())), Ok(TcpListener { fd: 3 }));
}

#[test]
fn builder_bind_needs_one_address() {
    let b = TcpBuilder::from_descriptor(3);
    let a = v4(127, 0, 0, 1, 80);
    assert_eq!(b.bind(&[a]), Ok(Syscall::Bind { fd: 3, addr: a }));
    assert_eq!(b.bind(&[]), Err(Error::NoAddress));
    assert_eq!(b.bind(&[a, a]), Err(Error::ManyAddresses));
    assert_eq!(b.descriptor(), Some(3));
    assert_eq!(b.connect_w_timeout(&[], 100, IN_PROGRESS), Step::Done(Err(Error::NoAddress)));
    assert_eq!(
        b.connect_w_timeout(&[a, a], 100, IN_PROGRESS),
        Step::Done(Err(Error::ManyAddresses))
    );
}

#[test]
fn udp_builder_gives_its_socket_away_when_bound() {
    let (_, made) = replay(UdpBuilder::new_v4(), &[Reply::ok(12), Reply::ok(0)]);
    let mut b = UdpBuilder::from_inner(made.unwrap().unwrap());
    let a = v4(0, 0, 0, 0, 5353);
    assert_eq!(b.bind(&[a]), Ok(Syscall::Bind { fd: 12, addr: a }));
    assert_eq!(b.finish_socket(Reply::failed(98).outcome()), Err(Error::Os(98)));
    assert_eq!(b.descriptor(), Some(12));
    assert_eq!(b.finish_socket(Reply::ok(0).outcome()), Ok(UdpSocket { fd: 12 }));
    assert_eq!(b.descriptor(), None);
    assert_eq!(b.bind(&[a]), Err(Error::BuilderFinished));
    assert_eq!(b.finish_socket(Ok(())), Err(Error::BuilderFinished));
    assert_eq!(b.with_socket().err(), Some(Error::BuilderFinished));
}

#[test]
fn udp_builder_shows_its_socket_while_it_holds_it() {
    let b = UdpBuilder::from_inner(Socket { fd: 12 });
    assert_eq!(b.with_socket().ok(), Some(&Socket { fd: 12 }));
    assert_eq!(b.bind(&[]), Err(Error::NoAddress));
    assert_eq!(b.bind(&[v4(0, 0, 0, 0, 1), v4(0, 0, 0, 0, 2)]), Err(Error::ManyAddresses));
}

#[test]
fn errors_have_kinds_codes_and_messages() {
    assert_eq!(Error::Os(13).kind(), ErrorKind::Os);
    assert_eq!(Error::Os(13).raw_os_error(), Some(13));
    assert_eq!(Error::TimedOut.kind(), ErrorKind::TimedOut);
    assert_eq!(Error::TimedOut.raw_os_error(), None);
    for e in [Error::BuilderFinished, Error::NoAddress, Error::ManyAddresses, Error::NothingToConnect] {
        assert_eq!(e.kind(), ErrorKind::Other);
        assert_eq!(e.raw_os_error(), None);
    }
    assert_eq!(Error::BuilderFinished.message(), "builder has already finished its socket");
    assert_eq!(Error::NoAddress.message(), "no socket addresses could be resolved");
    assert_eq!(Error::ManyAddresses.message(), "more than one address resolved");
    assert_eq!(Error::NothingToConnect.message(), "no socket addresses resolved");
    assert_eq!(Error::TimedOut.message(), "Connection timed out");
    assert_eq!(Error::Os(13).message(), "the operating system reported an error");
    assert_eq!(Error::BadLength.kind(), ErrorKind::Other);
    assert_eq!(Error::BadLength.raw_os_error(), None);
    assert_eq!(Error::BadLength.message(), "socket option of unexpected length");
}

#[test]
fn replay_stops_when_the_replies_are_used_up() {
    let sock = Socket::from_inner(3);
    let addr = v4(10, 0, 0, 1, 80);
    let (calls, outcome) = replay(
        sock.connect_w_timeout(&addr, 100, IN_PROGRESS),
        &[Reply::ok(0), Reply::failed(IN_PROGRESS)],
    );
    assert_eq!(
        calls,
        vec![
            on(),
            Syscall::Connect { fd: 3, addr },
            Syscall::Wait { fd: 3, readable: true, writable: true, timeout: Timeval { tv_sec: 0, tv_usec: 100_000 } },
        ]
    );
    assert_eq!(outcome, None);
}

#[test]
fn socket_addresses_know_their_family_and_their_number() {
    let a = v4(127, 0, 0, 1, 8080);
    let b = SocketAddr::v6(Ipv6Addr::new(0, 0, 0, 0, 0, 0, 0, 1), 443);
    assert!(a.is_ipv4());
    assert!(!b.is_ipv4());
    assert_eq!(a.port(), 8080);
    assert_eq!(b.port(), 443);
}
