//! The trusted boundary around the TCP socket.
//!
//! Everything here is an `external_body` wrapper over `socket2`: opening the
//! connection, setting its timeouts, writing a whole buffer and reading an
//! exact number of bytes. Verus believes only the contracts written below;
//! the transaction engine is verified against them, and states nothing about
//! what bytes a read returns.

use vstd::prelude::*;

use crate::error::NanonisError;

verus! {

#[verifier::external_type_specification]
#[verifier::external_body]
pub struct ExSocket(socket2::Socket);

#[verifier::external_type_specification]
#[verifier::external_body]
pub struct ExSocketAddr(core::net::SocketAddr);

/// Whether a character sequence spells a numeric IP address, exactly as the
/// `FromStr` of `core::net::IpAddr` accepts it. The result of that parse
/// depends on the characters alone, so it can carry a name; nothing more is
/// assumed of it.
pub uninterp spec fn is_ip_address(s: Seq<char>) -> bool;

/// Relies on the `FromStr` of `core::net::IpAddr` and on
/// `core::net::SocketAddr::new`: reads a numeric IP address and pairs it with
/// the port; `None` exactly when the text is not an IP address.
#[verifier::external_body]
pub(crate) fn parse_addr(host: &str, port: u16) -> (r: Option<core::net::SocketAddr>)
    ensures
        r is Some <==> is_ip_address(host@),
{
    match host.parse::<core::net::IpAddr>() {
        Ok(ip) => Some(core::net::SocketAddr::new(ip, port)),
        Err(_) => None,
    }
}

/// Relies on `socket2::Socket::new`, `socket2::SockAddr::from` and
/// `socket2::Socket::connect_timeout` / `socket2::Socket::connect`: opens one
/// TCP stream socket to the given address, or fails.
#[verifier::external_body]
pub(crate) fn sock_connect(addr: &core::net::SocketAddr, connect_timeout_ms: Option<u64>) -> (r: Result<
    socket2::Socket,
    NanonisError,
>)
    ensures
        r is Err ==> r->Err_0 is Io,
{
    let sa = socket2::SockAddr::from(*addr);
    let domain = if addr.is_ipv4() { socket2::Domain::IPV4 } else { socket2::Domain::IPV6 };
    let sock = match socket2::Socket::new(domain, socket2::Type::STREAM, None) {
        Ok(s) => s,
        Err(e) => return Err(NanonisError::Io(e.to_string())),
    };
    let res = match connect_timeout_ms {
        Some(ms) => sock.connect_timeout(&sa, core::time::Duration::from_millis(ms)),
        None => sock.connect(&sa),
    };
    match res {
        Ok(()) => Ok(sock),
        Err(e) => Err(NanonisError::Io(e.to_string())),
    }
}

/// Relies on `socket2::Socket::set_read_timeout`: a later read blocks at most
/// this long. `None` blocks forever, and so does a zero duration, which the
/// socket option treats as unset.
#[verifier::external_body]
pub(crate) fn sock_set_read_timeout(sock: &socket2::Socket, ms: Option<u64>) -> (r: Result<
    (),
    NanonisError,
>)
    ensures
        r is Err ==> r->Err_0 is Io,
{
    match sock.set_read_timeout(ms.map(core::time::Duration::from_millis)) {
        Ok(()) => Ok(()),
        Err(e) => Err(NanonisError::Io(e.to_string())),
    }
}

/// Relies on `socket2::Socket::set_write_timeout`: a later write blocks at
/// most this long. `None` blocks forever, and so does a zero duration, which
/// the socket option treats as unset.
#[verifier::external_body]
pub(crate) fn sock_set_write_timeout(sock: &socket2::Socket, ms: Option<u64>) -> (r: Result<
    (),
    NanonisError,
>)
    ensures
        r is Err ==> r->Err_0 is Io,
{
    match sock.set_write_timeout(ms.map(core::time::Duration::from_millis)) {
        Ok(()) => Ok(()),
        Err(e) => Err(NanonisError::Io(e.to_string())),
    }
}

/// Relies on `std::io::Write::write_all` for `&socket2::Socket`: the whole
/// buffer is written, or the call fails; a deadline that passes surfaces as
/// `ErrorKind::WouldBlock` or `ErrorKind::TimedOut`.
#[verifier::external_body]
pub(crate) fn sock_send_all(sock: &socket2::Socket, data: &Vec<u8>) -> (r: Result<
    (),
    NanonisError,
>)
    ensures
        r is Err ==> (r->Err_0 is Io || r->Err_0 is Timeout),
{
    let mut s: &socket2::Socket = sock;
    match std::io::Write::write_all(&mut s, data.as_slice()) {
        Ok(()) => Ok(()),
        Err(e) => Err(
            if e.kind() == std::io::ErrorKind::WouldBlock || e.kind()
                == std::io::ErrorKind::TimedOut {
                NanonisError::Timeout(e.to_string())
            } else {
                NanonisError::Io(e.to_string())
            },
        ),
    }
}

/// Relies on `std::io::Read::read_exact` for `&socket2::Socket`: on success
/// the buffer is filled completely, so the returned vector has exactly the
/// requested length; a deadline that passes surfaces as
/// `ErrorKind::WouldBlock` or `ErrorKind::TimedOut`.
#[verifier::external_body]
pub(crate) fn sock_recv_exact(sock: &socket2::Socket, n: usize) -> (r: Result<
    Vec<u8>,
    NanonisError,
>)
    ensures
        match r {
            Ok(b) => b@.len() == n,
            Err(e) => e is Io || e is Timeout,
        },
{
    let mut buf = vec![0u8; n];
    let mut s: &socket2::Socket = sock;
    match std::io::Read::read_exact(&mut s, &mut buf) {
        Ok(()) => Ok(buf),
        Err(e) => Err(
            if e.kind() == std::io::ErrorKind::WouldBlock || e.kind()
                == std::io::ErrorKind::TimedOut {
                NanonisError::Timeout(e.to_string())
            } else {
                NanonisError::Io(e.to_string())
            },
        ),
    }
}

} // verus!
