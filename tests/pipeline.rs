use std::cell::RefCell;
use std::collections::VecDeque;
use std::io;
use std::rc::Rc;

use multiaddr::Multiaddr;
use p2p_core::and_then::{and_then, AndThenFuture};
use p2p_core::either::{EitherFuture, EitherListenStream, EitherOutbound, EitherOutput};
use p2p_core::io::{AsyncRead, AsyncWrite, ByteSeq};
use p2p_core::muxing::StreamMuxer;
use p2p_core::poll::{Async, ListenerStream, Poll, PollFuture};
use p2p_core::transport::{MuxedTransport, Transport};
use p2p_core::upgrade::{Endpoint, Upgrade};

fn addr(s: &str) -> Multiaddr {
    s.parse().unwrap()
}

/// A future that is not ready for `delay` polls, then yields its outcome.
struct Delayed<T> {
    delay: u32,
    outcome: Option<Result<T, io::ErrorKind>>,
}

fn ready_after<T>(delay: u32, value: T) -> Delayed<T> {
    Delayed { delay, outcome: Some(Ok(value)) }
}

fn failing<T>(kind: io::ErrorKind) -> Delayed<T> {
    Delayed { delay: 0, outcome: Some(Err(kind)) }
}

impl<T> PollFuture for Delayed<T> {
    type Item = T;

    fn poll_step(self, _next: Self, _r: Poll<T>) -> bool {
        true
    }

    fn poll(&mut self) -> Poll<T> {
        if self.delay > 0 {
            self.delay -= 1;
            return Ok(Async::NotReady);
        }
        match self.outcome.take().expect("polled after completion") {
            Ok(v) => Ok(Async::Ready(v)),
            Err(kind) => Err(io::Error::new(kind, "negotiation failed")),
        }
    }
}

fn poll_to_end<F: PollFuture>(f: &mut F) -> Result<F::Item, io::Error> {
    for _ in 0..100 {
        match f.poll() {
            Ok(Async::Ready(v)) => return Ok(v),
            Ok(Async::NotReady) => {}
            Err(e) => return Err(e),
        }
    }
    panic!("future never became ready")
}

/// A raw connection: the remote address and the layers applied to it.
#[derive(Debug, Clone, PartialEq)]
struct Conn {
    remote: String,
    layers: Vec<String>,
}

/// Incoming connections, one per remote address.
struct MemListener {
    remotes: VecDeque<String>,
}

impl ListenerStream for MemListener {
    type Upgrade = Delayed<Conn>;

    fn poll_step(self, _next: Self, _r: Poll<Option<(Delayed<Conn>, Multiaddr)>>) -> bool {
        true
    }

    fn poll(&mut self) -> Poll<Option<(Delayed<Conn>, Multiaddr)>> {
        match self.remotes.pop_front() {
            Some(r) => Ok(Async::Ready(Some((ready_after(1, Conn { remote: r.clone(), layers: vec![] }), addr(&r))))),
            None => Ok(Async::Ready(None)),
        }
    }
}

/// A transport that only supports `/memory` addresses.
#[derive(Debug, Clone, PartialEq)]
struct MemTransport {
    peers: Vec<String>,
}

fn is_memory(a: &Multiaddr) -> bool {
    a.to_string().starts_with("/memory/")
}

impl Transport for MemTransport {
    type Output = Conn;
    type Listener = MemListener;
    type ListenerUpgrade = Delayed<Conn>;
    type Dial = Delayed<Conn>;

    fn accepts_listen(self, _addr: Multiaddr) -> bool {
        true
    }

    fn accepts_dial(self, _addr: Multiaddr) -> bool {
        true
    }

    fn listen_step(self, _addr: Multiaddr, _listener: MemListener, _bound: Multiaddr) -> bool {
        true
    }

    fn dial_step(self, _addr: Multiaddr, _dial: Delayed<Conn>) -> bool {
        true
    }

    fn nat_step(self, _server: Multiaddr, _observed: Multiaddr, _r: Option<Multiaddr>) -> bool {
        true
    }

    fn listen_on(self, a: Multiaddr) -> Result<(MemListener, Multiaddr), (Self, Multiaddr)> {
        if is_memory(&a) {
            Ok((MemListener { remotes: self.peers.iter().cloned().collect() }, a))
        } else {
            Err((self, a))
        }
    }

    fn dial(self, a: Multiaddr) -> Result<Delayed<Conn>, (Self, Multiaddr)> {
        if is_memory(&a) {
            Ok(ready_after(1, Conn { remote: a.to_string(), layers: vec![] }))
        } else {
            Err((self, a))
        }
    }

    fn nat_traversal(&self, server: &Multiaddr, observed: &Multiaddr) -> Option<Multiaddr> {
        if is_memory(server) {
            Some(observed.clone())
        } else {
            None
        }
    }
}

impl MuxedTransport for MemTransport {
    type Incoming = Delayed<(Delayed<Conn>, Multiaddr)>;
    type IncomingUpgrade = Delayed<Conn>;

    fn incoming_step(self, _incoming: Self::Incoming) -> bool {
        true
    }

    fn next_incoming(self) -> Self::Incoming {
        let r = self.peers[0].clone();
        ready_after(1, (ready_after(0, Conn { remote: r.clone(), layers: vec![] }), addr(&r)))
    }
}

type Log = Rc<RefCell<Vec<(String, Endpoint, String)>>>;

/// An upgrade that adds a layer and records how it was started; it fails for
/// the remote named in `fail_for`.
#[derive(Clone)]
struct Layer {
    name: String,
    log: Log,
    fail_for: Option<String>,
}

impl Upgrade<Conn> for Layer {
    type Output = Conn;
    type Future = Delayed<Conn>;

    fn upgrade_step(self, _conn: Conn, _role: Endpoint, _addr: Multiaddr, _fut: Delayed<Conn>) -> bool {
        true
    }

    fn upgrade(&self, mut conn: Conn, role: Endpoint, a: &Multiaddr) -> Delayed<Conn> {
        self.log.borrow_mut().push((self.name.clone(), role, a.to_string()));
        if self.fail_for.as_deref() == Some(conn.remote.as_str()) {
            return failing(io::ErrorKind::InvalidData);
        }
        conn.layers.push(self.name.clone());
        ready_after(1, conn)
    }

    fn duplicate(&self) -> Self {
        self.clone()
    }
}

/// A multiplexed connection whose substreams echo back what is written.
struct LoopbackMuxer {
    next_id: u32,
    inbound: VecDeque<u32>,
    pending: Vec<u32>,
    live: Vec<u32>,
    inbound_closed: bool,
    outbound_closed: bool,
}

fn loopback(inbound: u32) -> LoopbackMuxer {
    LoopbackMuxer {
        next_id: inbound + 1,
        inbound: (1..=inbound).collect(),
        pending: vec![],
        live: vec![],
        inbound_closed: false,
        outbound_closed: false,
    }
}

#[derive(Debug)]
struct EchoSub {
    id: u32,
    data: VecDeque<u8>,
    shut: bool,
}

impl StreamMuxer for LoopbackMuxer {
    type Substream = EchoSub;
    type OutboundSubstream = u32;

    fn inbound_closed(self) -> bool {
        true
    }
    fn outbound_closed(self) -> bool {
        true
    }
    fn owns_substream(self, _s: EchoSub) -> bool {
        true
    }
    fn owns_outbound(self, _h: u32) -> bool {
        true
    }
    fn inbound_step(self, _next: Self, _r: Poll<Option<EchoSub>>) -> bool {
        true
    }
    fn open_step(self, _next: Self, _h: u32) -> bool {
        true
    }
    fn outbound_step(self, _next: Self, _h0: u32, _h1: u32, _r: Poll<Option<EchoSub>>) -> bool {
        true
    }
    fn destroy_outbound_step(self, _next: Self, _h: u32) -> bool {
        true
    }
    fn read_step(self, _n: Self, _s0: EchoSub, _s1: EchoSub, _b: ByteSeq, _a: ByteSeq, _r: Result<usize, io::Error>) -> bool {
        true
    }
    fn write_step(self, _n: Self, _s0: EchoSub, _s1: EchoSub, _b: ByteSeq, _r: Result<usize, io::Error>) -> bool {
        true
    }
    fn flush_step(self, _n: Self, _s0: EchoSub, _s1: EchoSub, _r: Result<(), io::Error>) -> bool {
        true
    }
    fn shutdown_step(self, _n: Self, _s0: EchoSub, _s1: EchoSub, _r: Poll<()>) -> bool {
        true
    }
    fn destroy_substream_step(self, _n: Self, _s: EchoSub) -> bool {
        true
    }

    fn poll_inbound(&mut self) -> Poll<Option<EchoSub>> {
        if self.inbound_closed {
            return Ok(Async::Ready(None));
        }
        match self.inbound.pop_front() {
            Some(id) => {
                self.live.push(id);
                Ok(Async::Ready(Some(EchoSub { id, data: VecDeque::new(), shut: false })))
            }
            None => Ok(Async::NotReady),
        }
    }

    fn open_outbound(&mut self) -> u32 {
        let id = self.next_id;
        self.next_id += 1;
        self.pending.push(id);
        id
    }

    fn poll_outbound(&mut self, h: &mut u32) -> Poll<Option<EchoSub>> {
        assert!(self.pending.contains(h), "not a request of this muxer");
        if self.outbound_closed {
            return Ok(Async::Ready(None));
        }
        self.pending.retain(|p| p != h);
        self.live.push(*h);
        Ok(Async::Ready(Some(EchoSub { id: *h, data: VecDeque::new(), shut: false })))
    }

    fn destroy_outbound(&mut self, h: u32) {
        assert!(self.pending.contains(&h), "not a request of this muxer");
        self.pending.retain(|p| *p != h);
    }

    fn read_substream(&mut self, s: &mut EchoSub, buf: &mut [u8]) -> Result<usize, io::Error> {
        assert!(self.live.contains(&s.id), "not a substream of this muxer");
        if s.data.is_empty() {
            return Err(io::Error::new(io::ErrorKind::WouldBlock, "nothing yet"));
        }
        let mut n = 0;
        while n < buf.len() {
            match s.data.pop_front() {
                Some(b) => {
                    buf[n] = b;
                    n += 1;
                }
                None => break,
            }
        }
        Ok(n)
    }

    fn write_substream(&mut self, s: &mut EchoSub, buf: &[u8]) -> Result<usize, io::Error> {
        assert!(self.live.contains(&s.id), "not a substream of this muxer");
        s.data.extend(buf.iter().copied());
        Ok(buf.len())
    }

    fn flush_substream(&mut self, s: &mut EchoSub) -> Result<(), io::Error> {
        assert!(self.live.contains(&s.id), "not a substream of this muxer");
        Ok(())
    }

    fn shutdown_substream(&mut self, s: &mut EchoSub) -> Poll<()> {
        assert!(self.live.contains(&s.id), "not a substream of this muxer");
        s.shut = true;
        Ok(Async::Ready(()))
    }

    fn destroy_substream(&mut self, s: EchoSub) {
        assert!(self.live.contains(&s.id), "not a substream of this muxer");
        self.live.retain(|l| *l != s.id);
    }

    fn close_inbound(&mut self) {
        self.inbound_closed = true;
    }

    fn close_outbound(&mut self) {
        self.outbound_closed = true;
    }
}

/// The multiplexing upgrade: turns a connection into a loopback muxer.
#[derive(Clone)]
struct Mux {
    log: Log,
}

impl Upgrade<Conn> for Mux {
    type Output = LoopbackMuxer;
    type Future = Delayed<LoopbackMuxer>;

    fn upgrade_step(self, _conn: Conn, _role: Endpoint, _addr: Multiaddr, _fut: Delayed<LoopbackMuxer>) -> bool {
        true
    }

    fn upgrade(&self, conn: Conn, role: Endpoint, a: &Multiaddr) -> Delayed<LoopbackMuxer> {
        assert_eq!(conn.layers, vec!["secure".to_string()]);
        self.log.borrow_mut().push(("mux".to_string(), role, a.to_string()));
        ready_after(1, loopback(0))
    }

    fn duplicate(&self) -> Self {
        self.clone()
    }
}

fn layer(name: &str, log: &Log) -> Layer {
    Layer { name: name.to_string(), log: log.clone(), fail_for: None }
}

fn mem(peers: &[&str]) -> MemTransport {
    MemTransport { peers: peers.iter().map(|p| p.to_string()).collect() }
}

#[test]
fn rejected_dial_returns_pipeline_and_address() {
    let log: Log = Rc::new(RefCell::new(vec![]));
    let p = and_then(mem(&["/memory/7"]), layer("secure", &log));
    let bad = addr("/ip4/127.0.0.1/tcp/80");
    let (p, back) = match p.dial(bad.clone()) {
        Ok(_) => panic!("a tcp address must be rejected"),
        Err(e) => e,
    };
    assert_eq!(back, bad);
    assert_eq!(p.transport, mem(&["/memory/7"]));
    let mut f = match p.dial(addr("/memory/5")) {
        Ok(f) => f,
        Err(_) => panic!("the same pipeline must still dial a memory address"),
    };
    let c = poll_to_end(&mut f).unwrap();
    assert_eq!(c.layers, vec!["secure".to_string()]);
    assert!(log.borrow().len() == 1);
}

#[test]
fn rejected_listen_returns_pipeline_and_address() {
    let log: Log = Rc::new(RefCell::new(vec![]));
    let p = and_then(mem(&["/memory/7"]), layer("secure", &log));
    let bad = addr("/ip4/10.0.0.1/tcp/4001");
    let (p, back) = match p.listen_on(bad.clone()) {
        Ok(_) => panic!("a tcp address must be rejected"),
        Err(e) => e,
    };
    assert_eq!(back, bad);
    let (_, bound) = match p.listen_on(addr("/memory/9")) {
        Ok(l) => l,
        Err(_) => panic!("the same pipeline must still listen on a memory address"),
    };
    assert_eq!(bound, addr("/memory/9"));
    assert!(log.borrow().is_empty());
}

#[test]
fn dial_upgrades_as_dialer_with_requested_address() {
    let log: Log = Rc::new(RefCell::new(vec![]));
    let p = and_then(mem(&[]), layer("secure", &log));
    let mut f = match p.dial(addr("/memory/42")) {
        Ok(f) => f,
        Err(_) => panic!("memory addresses are supported"),
    };
    assert!(log.borrow().is_empty());
    assert!(matches!(f.poll(), Ok(Async::NotReady)));
    assert!(log.borrow().is_empty());
    assert!(matches!(f.poll(), Ok(Async::NotReady)));
    assert!(matches!(f, AndThenFuture::Upgrading { .. }));
    let c = poll_to_end(&mut f).unwrap();
    assert_eq!(c.remote, "/memory/42");
    assert_eq!(*log.borrow(), vec![("secure".to_string(), Endpoint::Dialer, "/memory/42".to_string())]);
}

#[test]
fn listen_upgrades_as_listener_with_remote_address() {
    let log: Log = Rc::new(RefCell::new(vec![]));
    let p = and_then(mem(&["/memory/100", "/memory/200"]), layer("secure", &log));
    let (mut l, _) = match p.listen_on(addr("/memory/1")) {
        Ok(l) => l,
        Err(_) => panic!("memory addresses are supported"),
    };
    let mut seen = vec![];
    while let Ok(Async::Ready(Some((mut fut, remote)))) = l.poll() {
        let c = poll_to_end(&mut fut).unwrap();
        assert_eq!(c.remote, remote.to_string());
        seen.push(remote.to_string());
    }
    assert_eq!(seen, vec!["/memory/100".to_string(), "/memory/200".to_string()]);
    assert_eq!(
        *log.borrow(),
        vec![
            ("secure".to_string(), Endpoint::Listener, "/memory/100".to_string()),
            ("secure".to_string(), Endpoint::Listener, "/memory/200".to_string()),
        ]
    );
}

#[test]
fn failed_upgrade_does_not_stop_listener() {
    let log: Log = Rc::new(RefCell::new(vec![]));
    let mut up = layer("secure", &log);
    up.fail_for = Some("/memory/2".to_string());
    let p = and_then(mem(&["/memory/1", "/memory/2", "/memory/3"]), up);
    let (mut l, _) = match p.listen_on(addr("/memory/0")) {
        Ok(l) => l,
        Err(_) => panic!("memory addresses are supported"),
    };
    let mut outcomes = vec![];
    loop {
        match l.poll() {
            Ok(Async::Ready(Some((mut fut, remote)))) => {
                outcomes.push((remote.to_string(), poll_to_end(&mut fut).is_ok()));
            }
            Ok(Async::Ready(None)) => break,
            _ => panic!("the memory listener is always ready"),
        }
    }
    assert_eq!(
        outcomes,
        vec![
            ("/memory/1".to_string(), true),
            ("/memory/2".to_string(), false),
            ("/memory/3".to_string(), true),
        ]
    );
}

#[test]
fn next_incoming_upgrades_as_listener() {
    let log: Log = Rc::new(RefCell::new(vec![]));
    let p = and_then(mem(&["/memory/77"]), layer("secure", &log));
    let mut inc = p.next_incoming();
    let (mut fut, remote) = poll_to_end(&mut inc).unwrap();
    assert_eq!(remote, addr("/memory/77"));
    let c = poll_to_end(&mut fut).unwrap();
    assert_eq!(c.layers, vec!["secure".to_string()]);
    assert_eq!(*log.borrow(), vec![("secure".to_string(), Endpoint::Listener, "/memory/77".to_string())]);
}

#[test]
fn nat_traversal_passes_through() {
    let log: Log = Rc::new(RefCell::new(vec![]));
    let p = and_then(mem(&[]), layer("secure", &log));
    let observed = addr("/memory/555");
    assert_eq!(p.nat_traversal(&addr("/memory/1"), &observed), Some(observed.clone()));
    assert_eq!(p.nat_traversal(&addr("/ip4/1.2.3.4/tcp/1"), &observed), None);
}

#[test]
fn dial_failure_of_base_is_passed_on() {
    let log: Log = Rc::new(RefCell::new(vec![]));
    let up = layer("secure", &log);
    let mut f: AndThenFuture<Delayed<Conn>, Layer> = AndThenFuture::Connecting {
        inner: failing(io::ErrorKind::ConnectionRefused),
        upgrade: up,
        role: Endpoint::Dialer,
        addr: addr("/memory/3"),
    };
    let e = poll_to_end(&mut f).err().unwrap();
    assert_eq!(e.kind(), io::ErrorKind::ConnectionRefused);
    assert!(log.borrow().is_empty());
}

#[test]
fn secured_multiplexed_pipeline_echoes_ping() {
    let log: Log = Rc::new(RefCell::new(vec![]));
    let p = and_then(and_then(mem(&[]), layer("secure", &log)), Mux { log: log.clone() });
    let mut f = match p.dial(addr("/memory/1234")) {
        Ok(f) => f,
        Err(_) => panic!("memory addresses are supported"),
    };
    let mut m = poll_to_end(&mut f).unwrap();
    assert_eq!(
        *log.borrow(),
        vec![
            ("secure".to_string(), Endpoint::Dialer, "/memory/1234".to_string()),
            ("mux".to_string(), Endpoint::Dialer, "/memory/1234".to_string()),
        ]
    );
    let mut other_h = m.open_outbound();
    let mut other = match m.poll_outbound(&mut other_h) {
        Ok(Async::Ready(Some(s))) => s,
        _ => panic!("outbound substreams open at once"),
    };
    let mut h = m.open_outbound();
    let mut s = match m.poll_outbound(&mut h) {
        Ok(Async::Ready(Some(s))) => s,
        _ => panic!("outbound substreams open at once"),
    };
    assert_eq!(m.write_substream(&mut other, b"noise").unwrap(), 5);
    assert_eq!(m.write_substream(&mut s, b"ping").unwrap(), 4);
    m.flush_substream(&mut s).unwrap();
    let mut buf = [0u8; 16];
    let n = m.read_substream(&mut s, &mut buf).unwrap();
    assert_eq!(&buf[..n], b"ping");
    assert!(matches!(m.shutdown_substream(&mut s), Ok(Async::Ready(()))));
    m.destroy_substream(s);
    m.destroy_substream(other);
    assert!(m.live.is_empty());
}

/// An in-memory byte stream: reads drain `data`, writes append to it.
#[derive(Debug, Clone, PartialEq)]
struct Pipe {
    data: VecDeque<u8>,
    shut: bool,
}

fn pipe(bytes: &[u8]) -> Pipe {
    Pipe { data: bytes.iter().copied().collect(), shut: false }
}

impl AsyncRead for Pipe {
    fn prepare_step(self, _b: ByteSeq, _a: ByteSeq, _r: bool) -> bool {
        true
    }
    fn read_step(self, _n: Self, _b: ByteSeq, _a: ByteSeq, _r: Result<usize, io::Error>) -> bool {
        true
    }
    fn prepare_uninitialized_buffer(&self, buf: &mut [u8]) -> bool {
        for b in buf.iter_mut() {
            *b = 0;
        }
        true
    }
    fn read(&mut self, buf: &mut [u8]) -> Result<usize, io::Error> {
        if self.data.is_empty() {
            return Err(io::Error::new(io::ErrorKind::WouldBlock, "nothing yet"));
        }
        let mut n = 0;
        while n < buf.len() {
            match self.data.pop_front() {
                Some(b) => {
                    buf[n] = b;
                    n += 1;
                }
                None => break,
            }
        }
        Ok(n)
    }
}

impl AsyncWrite for Pipe {
    fn write_step(self, _n: Self, _b: ByteSeq, _r: Result<usize, io::Error>) -> bool {
        true
    }
    fn flush_step(self, _n: Self, _r: Result<(), io::Error>) -> bool {
        true
    }
    fn shutdown_step(self, _n: Self, _r: Poll<()>) -> bool {
        true
    }
    fn write(&mut self, buf: &[u8]) -> Result<usize, io::Error> {
        if self.shut {
            return Err(io::Error::new(io::ErrorKind::BrokenPipe, "shut down"));
        }
        self.data.extend(buf.iter().copied());
        Ok(buf.len())
    }
    fn flush(&mut self) -> Result<(), io::Error> {
        Ok(())
    }
    fn shutdown(&mut self) -> Poll<()> {
        self.shut = true;
        Ok(Async::Ready(()))
    }
}

#[test]
fn either_output_reads_and_writes_as_first() {
    let mut direct = pipe(b"hello");
    let mut wrapped: EitherOutput<Pipe, Pipe> = EitherOutput::First(pipe(b"hello"));
    let mut b1 = [0u8; 3];
    let mut b2 = [0u8; 3];
    assert_eq!(direct.read(&mut b1).unwrap(), wrapped.read(&mut b2).unwrap());
    assert_eq!(b1, b2);
    assert_eq!(&b2, b"hel");
    assert_eq!(direct.write(b"xy").unwrap(), wrapped.write(b"xy").unwrap());
    assert!(wrapped.flush().is_ok());
    assert!(matches!(wrapped.shutdown(), Ok(Async::Ready(()))));
    assert!(matches!(direct.shutdown(), Ok(Async::Ready(()))));
    assert_eq!(direct.write(b"z").unwrap_err().kind(), wrapped.write(b"z").unwrap_err().kind());
    match wrapped {
        EitherOutput::First(p) => assert_eq!(p, direct),
        EitherOutput::Second(_) => panic!("the case never changes"),
    }
}

#[test]
fn either_output_reads_and_writes_as_second() {
    let mut direct = pipe(b"");
    let mut wrapped: EitherOutput<Pipe, Pipe> = EitherOutput::Second(pipe(b""));
    let mut b1 = [0u8; 4];
    let mut b2 = [0u8; 4];
    assert_eq!(direct.read(&mut b1).unwrap_err().kind(), io::ErrorKind::WouldBlock);
    assert_eq!(wrapped.read(&mut b2).unwrap_err().kind(), io::ErrorKind::WouldBlock);
    assert_eq!(wrapped.write(b"abc").unwrap(), 3);
    assert_eq!(wrapped.read(&mut b2).unwrap(), 3);
    assert_eq!(&b2[..3], b"abc");
    let mut raw = [7u8; 2];
    assert!(wrapped.prepare_uninitialized_buffer(&mut raw));
    assert_eq!(raw, [0, 0]);
    assert!(matches!(wrapped, EitherOutput::Second(_)));
}

#[test]
fn either_future_polls_as_held_future() {
    let mut a: EitherFuture<Delayed<u32>, Delayed<String>> = EitherFuture::First(ready_after(1, 5));
    assert!(matches!(a.poll(), Ok(Async::NotReady)));
    assert!(matches!(a.poll(), Ok(Async::Ready(EitherOutput::First(5)))));
    let mut b: EitherFuture<Delayed<u32>, Delayed<String>> = EitherFuture::Second(ready_after(0, "x".to_string()));
    match b.poll() {
        Ok(Async::Ready(EitherOutput::Second(s))) => assert_eq!(s, "x"),
        _ => panic!("the second future is ready at once"),
    }
    let mut c: EitherFuture<Delayed<u32>, Delayed<String>> = EitherFuture::First(failing(io::ErrorKind::TimedOut));
    assert_eq!(c.poll().err().unwrap().kind(), io::ErrorKind::TimedOut);
}

#[test]
fn either_listener_tags_incoming_connections() {
    let mut l: EitherListenStream<MemListener, MemListener> =
        EitherListenStream::Second(MemListener { remotes: vec!["/memory/8".to_string()].into() });
    let (mut fut, remote) = match l.poll() {
        Ok(Async::Ready(Some(item))) => item,
        _ => panic!("one connection is waiting"),
    };
    assert_eq!(remote, addr("/memory/8"));
    assert!(matches!(fut, EitherFuture::Second(_)));
    match poll_to_end(&mut fut).unwrap() {
        EitherOutput::Second(c) => assert_eq!(c.remote, "/memory/8"),
        EitherOutput::First(_) => panic!("the case never changes"),
    }
    assert!(matches!(l.poll(), Ok(Async::Ready(None))));
}

#[test]
fn either_muxer_resolves_and_releases_handles() {
    let mut m: EitherOutput<LoopbackMuxer, LoopbackMuxer> = EitherOutput::First(loopback(0));
    let mut h1 = m.open_outbound();
    let h2 = m.open_outbound();
    assert!(matches!(h1, EitherOutbound::A(_)));
    let mut s = match m.poll_outbound(&mut h1) {
        Ok(Async::Ready(Some(s))) => s,
        _ => panic!("outbound substreams open at once"),
    };
    assert!(matches!(s, EitherOutput::First(_)));
    m.destroy_outbound(h2);
    assert_eq!(m.write_substream(&mut s, b"ping").unwrap(), 4);
    let mut buf = [0u8; 8];
    let n = m.read_substream(&mut s, &mut buf).unwrap();
    assert_eq!(&buf[..n], b"ping");
    m.destroy_substream(s);
    match m {
        EitherOutput::First(inner) => {
            assert!(inner.pending.is_empty());
            assert!(inner.live.is_empty());
        }
        EitherOutput::Second(_) => panic!("the case never changes"),
    }
}

#[test]
fn either_muxer_closing_inbound_keeps_outbound() {
    let mut m: EitherOutput<LoopbackMuxer, LoopbackMuxer> = EitherOutput::Second(loopback(2));
    let first = match m.poll_inbound() {
        Ok(Async::Ready(Some(s))) => s,
        _ => panic!("an inbound substream is waiting"),
    };
    m.close_inbound();
    assert!(matches!(m.poll_inbound(), Ok(Async::Ready(None))));
    let mut h = m.open_outbound();
    assert!(matches!(m.poll_outbound(&mut h), Ok(Async::Ready(Some(EitherOutput::Second(_))))));
    m.destroy_substream(first);
}

#[test]
fn either_muxer_closing_outbound_keeps_inbound() {
    let mut m: EitherOutput<LoopbackMuxer, LoopbackMuxer> = EitherOutput::First(loopback(1));
    let mut h = m.open_outbound();
    m.close_outbound();
    assert!(matches!(m.poll_outbound(&mut h), Ok(Async::Ready(None))));
    m.destroy_outbound(h);
    assert!(matches!(m.poll_inbound(), Ok(Async::Ready(Some(EitherOutput::First(_))))));
}
