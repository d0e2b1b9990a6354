//! The networking capability: TCP streams and listeners, UDP sockets, the
//! generic socket, and host-name resolution.  Address values are plain data
//! and fully usable; every operation that would touch the network fails with
//! `Unsupported`, and the handle types a success would produce cannot be
//! constructed.

use vstd::prelude::*;
use crate::error::{unsupported, IoError};
use crate::handle::NoHandle;
use crate::io::{IoSlice, IoSliceMut};
use crate::time::Duration;

verus! {

/// An IPv4 address as its four octets.
#[derive(Clone, Copy, Debug, PartialEq, Eq, Hash)]
pub struct Ipv4Addr {
    pub octets: [u8; 4],
}

impl Ipv4Addr {
    pub fn new(a: u8, b: u8, c: u8, d: u8) -> (ip: Ipv4Addr)
        ensures
            ip.octets@ == seq![a, b, c, d],
    {
        let ip = Ipv4Addr { octets: [a, b, c, d] };
        proof {
            assert(ip.octets@ =~= seq![a, b, c, d]);
        }
        ip
    }
}

/// An IPv6 address as its sixteen octets.
#[derive(Clone, Copy, Debug, PartialEq, Eq, Hash)]
pub struct Ipv6Addr {
    pub octets: [u8; 16],
}

impl Ipv6Addr {
    pub fn new(octets: [u8; 16]) -> (ip: Ipv6Addr)
        ensures
            ip.octets == octets,
    {
        Ipv6Addr { octets }
    }
}

/// An IPv4 socket address.
#[derive(Clone, Copy, Debug, PartialEq, Eq, Hash)]
pub struct SocketAddrV4 {
    pub ip: Ipv4Addr,
    pub port: u16,
}

/// An IPv6 socket address.
#[derive(Clone, Copy, Debug, PartialEq, Eq, Hash)]
pub struct SocketAddrV6 {
    pub ip: Ipv6Addr,
    pub port: u16,
    pub flowinfo: u32,
    pub scope_id: u32,
}

/// A socket address of either family.
#[derive(Clone, Copy, Debug, PartialEq, Eq, Hash)]
pub enum SocketAddr {
    V4(SocketAddrV4),
    V6(SocketAddrV6),
}

impl SocketAddr {
    pub fn port(&self) -> (p: u16)
        ensures
            p == (match *self {
                SocketAddr::V4(a) => a.port,
                SocketAddr::V6(a) => a.port,
            }),
    {
        match self {
            SocketAddr::V4(a) => a.port,
            SocketAddr::V6(a) => a.port,
        }
    }
}

/// Which directions of a connection to shut down.
#[derive(Clone, Copy, Debug, PartialEq, Eq, Structural)]
pub enum Shutdown {
    Read,
    Write,
    Both,
}

/// The generic native socket.  On this platform none can exist.
#[derive(Debug)]
pub struct Socket {
    #[allow(dead_code)]
    pub(crate) token: NoHandle,
}

/// One-time network-stack initialization; nothing to do on this platform.
pub fn init() {
}

/// Translates an address-resolution status into the uniform failure.
pub fn cvt_gai(_err: i32) -> (r: Result<(), IoError>)
    ensures
        r is Err && r->Err_0.is_unsupported(),
{
    unsupported()
}

impl Socket {
    pub fn new(_addr: &SocketAddr, _ty: i32) -> (r: Result<Socket, IoError>)
        ensures
            r is Err && r->Err_0.is_unsupported(),
    {
        unsupported()
    }

    pub fn new_raw(_fam: i32, _ty: i32) -> (r: Result<Socket, IoError>)
        ensures
            r is Err && r->Err_0.is_unsupported(),
    {
        unsupported()
    }

    pub fn new_pair(_fam: i32, _ty: i32) -> (r: Result<(Socket, Socket), IoError>)
        ensures
            r is Err && r->Err_0.is_unsupported(),
    {
        unsupported()
    }

    /// A bounded-duration connection attempt, distinct from a blocking
    /// connect.
    pub fn connect_timeout(&self, _addr: &SocketAddr, _timeout: Duration) -> (r: Result<
        (),
        IoError,
    >)
        ensures
            r is Err && r->Err_0.is_unsupported(),
    {
        unsupported()
    }

    pub fn accept(&self) -> (r: Result<(Socket, SocketAddr), IoError>)
        ensures
            r is Err && r->Err_0.is_unsupported(),
    {
        unsupported()
    }

    pub fn duplicate(&self) -> (r: Result<Socket, IoError>)
        ensures
            r is Err && r->Err_0.is_unsupported(),
    {
        unsupported()
    }

    pub fn read(&self, buf: &mut [u8]) -> (r: Result<usize, IoError>)
        ensures
            r is Err && r->Err_0.is_unsupported(),
            final(buf)@ == old(buf)@,
    {
        unsupported()
    }

    pub fn peek(&self, buf: &mut [u8]) -> (r: Result<usize, IoError>)
        ensures
            r is Err && r->Err_0.is_unsupported(),
            final(buf)@ == old(buf)@,
    {
        unsupported()
    }

    pub fn read_vectored(&self, _bufs: &mut [IoSliceMut]) -> (r: Result<usize, IoError>)
        ensures
            r is Err && r->Err_0.is_unsupported(),
    {
        unsupported()
    }

    pub fn is_read_vectored(&self) -> (r: bool)
        ensures
            r == false,
    {
        false
    }

    pub fn recv_from(&self, buf: &mut [u8]) -> (r: Result<(usize, SocketAddr), IoError>)
        ensures
            r is Err && r->Err_0.is_unsupported(),
            final(buf)@ == old(buf)@,
    {
        unsupported()
    }

    pub fn peek_from(&self, buf: &mut [u8]) -> (r: Result<(usize, SocketAddr), IoError>)
        ensures
            r is Err && r->Err_0.is_unsupported(),
            final(buf)@ == old(buf)@,
    {
        unsupported()
    }

    pub fn write(&self, _buf: &[u8]) -> (r: Result<usize, IoError>)
        ensures
            r is Err && r->Err_0.is_unsupported(),
    {
        unsupported()
    }

    pub fn write_vectored(&self, _bufs: &[IoSlice<'_>]) -> (r: Result<usize, IoError>)
        ensures
            r is Err && r->Err_0.is_unsupported(),
    {
        unsupported()
    }

    pub fn is_write_vectored(&self) -> (r: bool)
        ensures
            r == false,
    {
        false
    }

    pub fn set_timeout(&self, _dur: Option<Duration>, _kind: i32) -> (r: Result<(), IoError>)
        ensures
            r is Err && r->Err_0.is_unsupported(),
    {
        unsupported()
    }

    pub fn timeout(&self, _kind: i32) -> (r: Result<Option<Duration>, IoError>)
        ensures
            r is Err && r->Err_0.is_unsupported(),
    {
        unsupported()
    }

    pub fn shutdown(&self, _how: Shutdown) -> (r: Result<(), IoError>)
        ensures
            r is Err && r->Err_0.is_unsupported(),
    {
        unsupported()
    }

    pub fn set_linger(&self, _linger: Option<Duration>) -> (r: Result<(), IoError>)
        ensures
            r is Err && r->Err_0.is_unsupported(),
    {
        unsupported()
    }

    pub fn linger(&self) -> (r: Result<Option<Duration>, IoError>)
        ensures
            r is Err && r->Err_0.is_unsupported(),
    {
        unsupported()
    }

    pub fn set_nodelay(&self, _nodelay: bool) -> (r: Result<(), IoError>)
        ensures
            r is Err && r->Err_0.is_unsupported(),
    {
        unsupported()
    }

    pub fn nodelay(&self) -> (r: Result<bool, IoError>)
        ensures
            r is Err && r->Err_0.is_unsupported(),
    {
        unsupported()
    }

    pub fn set_quickack(&self, _quickack: bool) -> (r: Result<(), IoError>)
        ensures
            r is Err && r->Err_0.is_unsupported(),
    {
        unsupported()
    }

    pub fn quickack(&self) -> (r: Result<bool, IoError>)
        ensures
            r is Err && r->Err_0.is_unsupported(),
    {
        unsupported()
    }

    pub fn set_passcred(&self, _passcred: bool) -> (r: Result<(), IoError>)
        ensures
            r is Err && r->Err_0.is_unsupported(),
    {
        unsupported()
    }

    pub fn passcred(&self) -> (r: Result<bool, IoError>)
        ensures
            r is Err && r->Err_0.is_unsupported(),
    {
        unsupported()
    }

    pub fn set_nonblocking(&self, _nonblocking: bool) -> (r: Result<(), IoError>)
        ensures
            r is Err && r->Err_0.is_unsupported(),
    {
        unsupported()
    }

    pub fn set_mark(&self, _mark: u32) -> (r: Result<(), IoError>)
        ensures
            r is Err && r->Err_0.is_unsupported(),
    {
        unsupported()
    }

    pub fn take_error(&self) -> (r: Result<Option<IoError>, IoError>)
        ensures
            r is Err && r->Err_0.is_unsupported(),
    {
        unsupported()
    }

    /// The conventional invalid descriptor: no socket of this platform owns a
    /// real one.
    pub fn as_raw(&self) -> (fd: i32)
        ensures
            fd == -1,
    {
        -1
    }
}

/// A TCP connection.  On this platform none can exist.
#[derive(Debug)]
pub struct TcpStream {
    sock: Socket,
}

impl TcpStream {
    /// Connecting is not supported for any address.
    pub fn connect(_addr: Result<&SocketAddr, IoError>) -> (r: Result<TcpStream, IoError>)
        ensures
            r is Err && r->Err_0.is_unsupported(),
    {
        unsupported()
    }

    pub fn connect_timeout(_addr: &SocketAddr, _timeout: Duration) -> (r: Result<
        TcpStream,
        IoError,
    >)
        ensures
            r is Err && r->Err_0.is_unsupported(),
    {
        unsupported()
    }

    pub fn socket(&self) -> (s: &Socket) {
        &self.sock
    }

    pub fn into_socket(self) -> (s: Socket) {
        self.sock
    }

    pub fn set_read_timeout(&self, _dur: Option<Duration>) -> (r: Result<(), IoError>)
        ensures
            r is Err && r->Err_0.is_unsupported(),
    {
        unsupported()
    }

    pub fn set_write_timeout(&self, _dur: Option<Duration>) -> (r: Result<(), IoError>)
        ensures
            r is Err && r->Err_0.is_unsupported(),
    {
        unsupported()
    }

    pub fn read_timeout(&self) -> (r: Result<Option<Duration>, IoError>)
        ensures
            r is Err && r->Err_0.is_unsupported(),
    {
        unsupported()
    }

    pub fn write_timeout(&self) -> (r: Result<Option<Duration>, IoError>)
        ensures
            r is Err && r->Err_0.is_unsupported(),
    {
        unsupported()
    }

    pub fn peek(&self, buf: &mut [u8]) -> (r: Result<usize, IoError>)
        ensures
            r is Err && r->Err_0.is_unsupported(),
            final(buf)@ == old(buf)@,
    {
        unsupported()
    }

    pub fn read(&self, buf: &mut [u8]) -> (r: Result<usize, IoError>)
        ensures
            r is Err && r->Err_0.is_unsupported(),
            final(buf)@ == old(buf)@,
    {
        unsupported()
    }

    pub fn read_vectored(&self, _bufs: &mut [IoSliceMut]) -> (r: Result<usize, IoError>)
        ensures
            r is Err && r->Err_0.is_unsupported(),
    {
        unsupported()
    }

    pub fn is_read_vectored(&self) -> (r: bool)
        ensures
            r == false,
    {
        false
    }

    pub fn write(&self, _buf: &[u8]) -> (r: Result<usize, IoError>)
        ensures
            r is Err && r->Err_0.is_unsupported(),
    {
        unsupported()
    }

    pub fn write_vectored(&self, _bufs: &[IoSlice<'_>]) -> (r: Result<usize, IoError>)
        ensures
            r is Err && r->Err_0.is_unsupported(),
    {
        unsupported()
    }

    pub fn is_write_vectored(&self) -> (r: bool)
        ensures
            r == false,
    {
        false
    }

    pub fn peer_addr(&self) -> (r: Result<SocketAddr, IoError>)
        ensures
            r is Err && r->Err_0.is_unsupported(),
    {
        unsupported()
    }

    pub fn socket_addr(&self) -> (r: Result<SocketAddr, IoError>)
        ensures
            r is Err && r->Err_0.is_unsupported(),
    {
        unsupported()
    }

    pub fn shutdown(&self, _how: Shutdown) -> (r: Result<(), IoError>)
        ensures
            r is Err && r->Err_0.is_unsupported(),
    {
        unsupported()
    }

    pub fn duplicate(&self) -> (r: Result<TcpStream, IoError>)
        ensures
            r is Err && r->Err_0.is_unsupported(),
    {
        unsupported()
    }

    pub fn set_linger(&self, _linger: Option<Duration>) -> (r: Result<(), IoError>)
        ensures
            r is Err && r->Err_0.is_unsupported(),
    {
        unsupported()
    }

    pub fn linger(&self) -> (r: Result<Option<Duration>, IoError>)
        ensures
            r is Err && r->Err_0.is_unsupported(),
    {
        unsupported()
    }

    pub fn set_nodelay(&self, _nodelay: bool) -> (r: Result<(), IoError>)
        ensures
            r is Err && r->Err_0.is_unsupported(),
    {
        unsupported()
    }

    pub fn nodelay(&self) -> (r: Result<bool, IoError>)
        ensures
            r is Err && r->Err_0.is_unsupported(),
    {
        unsupported()
    }

    pub fn set_ttl(&self, _ttl: u32) -> (r: Result<(), IoError>)
        ensures
            r is Err && r->Err_0.is_unsupported(),
    {
        unsupported()
    }

    pub fn ttl(&self) -> (r: Result<u32, IoError>)
        ensures
            r is Err && r->Err_0.is_unsupported(),
    {
        unsupported()
    }

    pub fn take_error(&self) -> (r: Result<Option<IoError>, IoError>)
        ensures
            r is Err && r->Err_0.is_unsupported(),
    {
        unsupported()
    }

    pub fn set_nonblocking(&self, _nonblocking: bool) -> (r: Result<(), IoError>)
        ensures
            r is Err && r->Err_0.is_unsupported(),
    {
        unsupported()
    }
}

/// A listening TCP socket.  On this platform none can exist.
#[derive(Debug)]
pub struct TcpListener {
    sock: Socket,
}

impl TcpListener {
    /// Binding is not supported for any address.
    pub fn bind(_addr: Result<&SocketAddr, IoError>) -> (r: Result<TcpListener, IoError>)
        ensures
            r is Err && r->Err_0.is_unsupported(),
    {
        unsupported()
    }

    pub fn socket(&self) -> (s: &Socket) {
        &self.sock
    }

    pub fn into_socket(self) -> (s: Socket) {
        self.sock
    }

    pub fn socket_addr(&self) -> (r: Result<SocketAddr, IoError>)
        ensures
            r is Err && r->Err_0.is_unsupported(),
    {
        unsupported()
    }

    pub fn accept(&self) -> (r: Result<(TcpStream, SocketAddr), IoError>)
        ensures
            r is Err && r->Err_0.is_unsupported(),
    {
        unsupported()
    }

    pub fn duplicate(&self) -> (r: Result<TcpListener, IoError>)
        ensures
            r is Err && r->Err_0.is_unsupported(),
    {
        unsupported()
    }

    pub fn set_ttl(&self, _ttl: u32) -> (r: Result<(), IoError>)
        ensures
            r is Err && r->Err_0.is_unsupported(),
    {
        unsupported()
    }

    pub fn ttl(&self) -> (r: Result<u32, IoError>)
        ensures
            r is Err && r->Err_0.is_unsupported(),
    {
        unsupported()
    }

    pub fn set_only_v6(&self, _only_v6: bool) -> (r: Result<(), IoError>)
        ensures
            r is Err && r->Err_0.is_unsupported(),
    {
        unsupported()
    }

    pub fn only_v6(&self) -> (r: Result<bool, IoError>)
        ensures
            r is Err && r->Err_0.is_unsupported(),
    {
        unsupported()
    }

    pub fn take_error(&self) -> (r: Result<Option<IoError>, IoError>)
        ensures
            r is Err && r->Err_0.is_unsupported(),
    {
        unsupported()
    }

    pub fn set_nonblocking(&self, _nonblocking: bool) -> (r: Result<(), IoError>)
        ensures
            r is Err && r->Err_0.is_unsupported(),
    {
        unsupported()
    }
}

/// A UDP socket.  On this platform none can exist.
#[derive(Debug)]
pub struct UdpSocket {
    sock: Socket,
}

impl UdpSocket {
    /// Binding is not supported for any address.
    pub fn bind(_addr: Result<&SocketAddr, IoError>) -> (r: Result<UdpSocket, IoError>)
        ensures
            r is Err && r->Err_0.is_unsupported(),
    {
        unsupported()
    }

    pub fn socket(&self) -> (s: &Socket) {
        &self.sock
    }

    pub fn into_socket(self) -> (s: Socket) {
        self.sock
    }

    pub fn peer_addr(&self) -> (r: Result<SocketAddr, IoError>)
        ensures
            r is Err && r->Err_0.is_unsupported(),
    {
        unsupported()
    }

    pub fn socket_addr(&self) -> (r: Result<SocketAddr, IoError>)
        ensures
            r is Err && r->Err_0.is_unsupported(),
    {
        unsupported()
    }

    pub fn recv_from(&self, buf: &mut [u8]) -> (r: Result<(usize, SocketAddr), IoError>)
        ensures
            r is Err && r->Err_0.is_unsupported(),
            final(buf)@ == old(buf)@,
    {
        unsupported()
    }

    pub fn peek_from(&self, buf: &mut [u8]) -> (r: Result<(usize, SocketAddr), IoError>)
        ensures
            r is Err && r->Err_0.is_unsupported(),
            final(buf)@ == old(buf)@,
    {
        unsupported()
    }

    pub fn send_to(&self, _buf: &[u8], _addr: &SocketAddr) -> (r: Result<usize, IoError>)
        ensures
            r is Err && r->Err_0.is_unsupported(),
    {
        unsupported()
    }

    pub fn duplicate(&self) -> (r: Result<UdpSocket, IoError>)
        ensures
            r is Err && r->Err_0.is_unsupported(),
    {
        unsupported()
    }

    pub fn set_read_timeout(&self, _dur: Option<Duration>) -> (r: Result<(), IoError>)
        ensures
            r is Err && r->Err_0.is_unsupported(),
    {
        unsupported()
    }

    pub fn set_write_timeout(&self, _dur: Option<Duration>) -> (r: Result<(), IoError>)
        ensures
            r is Err && r->Err_0.is_unsupported(),
    {
        unsupported()
    }

    pub fn read_timeout(&self) -> (r: Result<Option<Duration>, IoError>)
        ensures
            r is Err && r->Err_0.is_unsupported(),
    {
        unsupported()
    }

    pub fn write_timeout(&self) -> (r: Result<Option<Duration>, IoError>)
        ensures
            r is Err && r->Err_0.is_unsupported(),
    {
        unsupported()
    }

    pub fn set_broadcast(&self, _broadcast: bool) -> (r: Result<(), IoError>)
        ensures
            r is Err && r->Err_0.is_unsupported(),
    {
        unsupported()
    }

    pub fn broadcast(&self) -> (r: Result<bool, IoError>)
        ensures
            r is Err && r->Err_0.is_unsupported(),
    {
        unsupported()
    }

    pub fn set_multicast_loop_v4(&self, _on: bool) -> (r: Result<(), IoError>)
        ensures
            r is Err && r->Err_0.is_unsupported(),
    {
        unsupported()
    }

    pub fn multicast_loop_v4(&self) -> (r: Result<bool, IoError>)
        ensures
            r is Err && r->Err_0.is_unsupported(),
    {
        unsupported()
    }

    pub fn set_multicast_ttl_v4(&self, _ttl: u32) -> (r: Result<(), IoError>)
        ensures
            r is Err && r->Err_0.is_unsupported(),
    {
        unsupported()
    }

    pub fn multicast_ttl_v4(&self) -> (r: Result<u32, IoError>)
        ensures
            r is Err && r->Err_0.is_unsupported(),
    {
        unsupported()
    }

    pub fn set_multicast_loop_v6(&self, _on: bool) -> (r: Result<(), IoError>)
        ensures
            r is Err && r->Err_0.is_unsupported(),
    {
        unsupported()
    }

    pub fn multicast_loop_v6(&self) -> (r: Result<bool, IoError>)
        ensures
            r is Err && r->Err_0.is_unsupported(),
    {
        unsupported()
    }

    pub fn join_multicast_v4(&self, _multiaddr: &Ipv4Addr, _interface: &Ipv4Addr) -> (r: Result<
        (),
        IoError,
    >)
        ensures
            r is Err && r->Err_0.is_unsupported(),
    {
        unsupported()
    }

    pub fn join_multicast_v6(&self, _multiaddr: &Ipv6Addr, _interface: u32) -> (r: Result<
        (),
        IoError,
    >)
        ensures
            r is Err && r->Err_0.is_unsupported(),
    {
        unsupported()
    }

    pub fn leave_multicast_v4(&self, _multiaddr: &Ipv4Addr, _interface: &Ipv4Addr) -> (r: Result<
        (),
        IoError,
    >)
        ensures
            r is Err && r->Err_0.is_unsupported(),
    {
        unsupported()
    }

    pub fn leave_multicast_v6(&self, _multiaddr: &Ipv6Addr, _interface: u32) -> (r: Result<
        (),
        IoError,
    >)
        ensures
            r is Err && r->Err_0.is_unsupported(),
    {
        unsupported()
    }

    pub fn set_ttl(&self, _ttl: u32) -> (r: Result<(), IoError>)
        ensures
            r is Err && r->Err_0.is_unsupported(),
    {
        unsupported()
    }

    pub fn ttl(&self) -> (r: Result<u32, IoError>)
        ensures
            r is Err && r->Err_0.is_unsupported(),
    {
        unsupported()
    }

    pub fn take_error(&self) -> (r: Result<Option<IoError>, IoError>)
        ensures
            r is Err && r->Err_0.is_unsupported(),
    {
        unsupported()
    }

    pub fn set_nonblocking(&self, _nonblocking: bool) -> (r: Result<(), IoError>)
        ensures
            r is Err && r->Err_0.is_unsupported(),
    {
        unsupported()
    }

    pub fn recv(&self, buf: &mut [u8]) -> (r: Result<usize, IoError>)
        ensures
            r is Err && r->Err_0.is_unsupported(),
            final(buf)@ == old(buf)@,
    {
        unsupported()
    }

    pub fn peek(&self, buf: &mut [u8]) -> (r: Result<usize, IoError>)
        ensures
            r is Err && r->Err_0.is_unsupported(),
            final(buf)@ == old(buf)@,
    {
        unsupported()
    }

    pub fn send(&self, _buf: &[u8]) -> (r: Result<usize, IoError>)
        ensures
            r is Err && r->Err_0.is_unsupported(),
    {
        unsupported()
    }

    pub fn connect(&self, _addr: Result<&SocketAddr, IoError>) -> (r: Result<(), IoError>)
        ensures
            r is Err && r->Err_0.is_unsupported(),
    {
        unsupported()
    }
}

/// The result of resolving a host name.  On this platform resolution always
/// fails, so none can exist.
#[derive(Debug)]
pub struct LookupHost {
    #[allow(dead_code)]
    token: NoHandle,
}

impl LookupHost {
    pub fn port(&self) -> (p: u16)
        ensures
            p == 0,
    {
        0
    }

    /// The next resolved address; stands in for the iterator the functional
    /// backends expose.
    pub fn next_addr(&mut self) -> (r: Option<SocketAddr>)
        ensures
            r is None,
            *final(self) == *old(self),
    {
        None
    }
}

/// Resolves a `host` or `host:port` string; not supported for any input.
pub fn lookup_host(_v: &str) -> (r: Result<LookupHost, IoError>)
    ensures
        r is Err && r->Err_0.is_unsupported(),
{
    unsupported()
}

/// Resolves a host name with an explicit port; not supported for any input.
pub fn lookup_host_port(_host: &str, _port: u16) -> (r: Result<LookupHost, IoError>)
    ensures
        r is Err && r->Err_0.is_unsupported(),
{
    unsupported()
}

} // verus!
