//! Decoding of the SOCKS5 greeting and connection request.
//!
//! The framing functions say, from the bytes received so far, how long the
//! message will be, so that a caller reads exact field lengths off a stream.
//! The parsing functions then decode a complete message.
use vstd::prelude::*;
use vstd::slice::{slice_subrange, slice_to_vec};
use crate::error::{ProtocolError, ProxyError};
use crate::text::{decimal, decode_lossy, push_char, push_decimal, utf8_lossy};

verus! {

/// The version marker of SOCKS5.
pub const SOCKS_VERSION: u8 = 5;

/// The CONNECT command.
pub const CMD_CONNECT: u8 = 1;

/// Address type of a four-byte IPv4 address.
pub const ATYP_IPV4: u8 = 1;

/// Address type of a length-prefixed domain name.
pub const ATYP_DOMAIN: u8 = 3;

/// Address type of a sixteen-byte IPv6 address, met only in replies.
pub const ATYP_IPV6: u8 = 4;

/// The kind of destination address a request carries.
#[derive(Clone, Copy, Debug, PartialEq, Eq, Structural)]
pub enum AddressKind {
    Ipv4,
    Domain,
}

/// A decoded CONNECT request.
#[derive(Clone, Debug)]
pub struct ParsedRequest {
    pub kind: AddressKind,
    /// The four address bytes, or the domain's bytes as sent.
    pub host: Vec<u8>,
    pub port: u16,
    /// The request exactly as it came, for forwarding upstream.
    pub raw: Vec<u8>,
}

impl ParsedRequest {
    /// An IPv4 request carries four address bytes; a domain fits a length byte.
    pub open spec fn wf(&self) -> bool {
        &&& self.kind == AddressKind::Ipv4 ==> self.host@.len() == 4
        &&& self.host@.len() <= 255
    }

    /// The destination as `host:port`: a dotted quad for IPv4, the domain's
    /// bytes decoded leniently otherwise.
    pub fn address(&self) -> (r: String)
        requires
            self.wf(),
        ensures
            r@ == address_text(self.kind, self.host@, self.port as nat),
    {
        let mut s = String::new();
        if self.kind == AddressKind::Ipv4 {
            push_decimal(&mut s, self.host[0] as u16);
            push_char(&mut s, '.');
            push_decimal(&mut s, self.host[1] as u16);
            push_char(&mut s, '.');
            push_decimal(&mut s, self.host[2] as u16);
            push_char(&mut s, '.');
            push_decimal(&mut s, self.host[3] as u16);
        } else {
            let d = decode_lossy(self.host.as_slice());
            s = d;
        }
        push_char(&mut s, ':');
        push_decimal(&mut s, self.port);
        assert(s@ =~= address_text(self.kind, self.host@, self.port as nat));
        s
    }
}

/// Dotted-quad notation of four address bytes.
pub open spec fn dotted_quad(h: Seq<u8>) -> Seq<char> {
    decimal(h[0] as nat) + seq!['.'] + decimal(h[1] as nat) + seq!['.'] + decimal(h[2] as nat)
        + seq!['.'] + decimal(h[3] as nat)
}

/// The text `host:port` of a destination.
pub open spec fn address_text(kind: AddressKind, host: Seq<u8>, port: nat) -> Seq<char> {
    let h = if kind == AddressKind::Ipv4 {
        dotted_quad(host)
    } else {
        utf8_lossy(host)
    };
    h + seq![':'] + decimal(port)
}

/// The port carried big-endian in two bytes.
pub open spec fn be_port(hi: u8, lo: u8) -> nat {
    hi as nat * 256 + lo as nat
}

/// The length of the greeting whose first bytes are `b`, or the protocol
/// error that those bytes already show.
pub open spec fn greeting_frame(b: Seq<u8>) -> Result<nat, ProxyError> {
    if b.len() >= 1 && b[0] != SOCKS_VERSION {
        Err(ProxyError::Protocol(ProtocolError::BadVersion))
    } else if b.len() < 2 {
        Ok(2)
    } else {
        Ok(2 + b[1] as nat)
    }
}

/// The length of the request whose first bytes are `b`, or the protocol
/// error that those bytes already show.
pub open spec fn request_frame(b: Seq<u8>) -> Result<nat, ProxyError> {
    if b.len() >= 2 && b[1] != CMD_CONNECT {
        Err(ProxyError::Protocol(ProtocolError::UnsupportedCommand))
    } else if b.len() < 4 {
        Ok(4)
    } else if b[3] == ATYP_IPV4 {
        Ok(10)
    } else if b[3] == ATYP_DOMAIN {
        if b.len() < 5 {
            Ok(5)
        } else {
            Ok(7 + b[4] as nat)
        }
    } else {
        Err(ProxyError::Protocol(ProtocolError::InvalidAddressType))
    }
}

/// What decoding a whole message from `b` yields, given its framing: the
/// framing's error, an I/O error where `b` ends early, else its length.
pub open spec fn complete(frame: Result<nat, ProxyError>, b: Seq<u8>) -> Result<nat, ProxyError> {
    match frame {
        Err(e) => Err(e),
        Ok(n) => if b.len() < n {
            Err(ProxyError::Io)
        } else {
            Ok(n)
        },
    }
}

/// The host bytes of a complete, well-formed request.
pub open spec fn request_host(b: Seq<u8>) -> Seq<u8> {
    if b[3] == ATYP_IPV4 {
        b.subrange(4, 8)
    } else {
        b.subrange(5, 5 + b[4] as int)
    }
}

/// The port of a complete, well-formed request of length `n`.
pub open spec fn request_port(b: Seq<u8>, n: nat) -> nat {
    be_port(b[n - 2], b[n - 1])
}

/// The total length of the greeting that begins with `received`, or the
/// protocol error that those bytes already show.
pub fn greeting_needed(received: &[u8]) -> (r: Result<usize, ProxyError>)
    ensures
        match r {
            Ok(n) => greeting_frame(received@) == Ok::<nat, ProxyError>(n as nat),
            Err(e) => greeting_frame(received@) == Err::<nat, ProxyError>(e),
        },
{
    if received.len() >= 1 && received[0] != SOCKS_VERSION {
        Err(ProxyError::Protocol(ProtocolError::BadVersion))
    } else if received.len() < 2 {
        Ok(2)
    } else {
        Ok(2 + received[1] as usize)
    }
}

/// The total length of the request that begins with `received`, or the
/// protocol error that those bytes already show.
pub fn request_needed(received: &[u8]) -> (r: Result<usize, ProxyError>)
    ensures
        match r {
            Ok(n) => request_frame(received@) == Ok::<nat, ProxyError>(n as nat),
            Err(e) => request_frame(received@) == Err::<nat, ProxyError>(e),
        },
{
    if received.len() >= 2 && received[1] != CMD_CONNECT {
        Err(ProxyError::Protocol(ProtocolError::UnsupportedCommand))
    } else if received.len() < 4 {
        Ok(4)
    } else if received[3] == ATYP_IPV4 {
        Ok(10)
    } else if received[3] == ATYP_DOMAIN {
        if received.len() < 5 {
            Ok(5)
        } else {
            Ok(7 + received[4] as usize)
        }
    } else {
        Err(ProxyError::Protocol(ProtocolError::InvalidAddressType))
    }
}

/// Checks a client greeting and returns its length. The offered methods are
/// not looked at: the proxy always answers with "no authentication".
pub fn parse_greeting(buf: &[u8]) -> (r: Result<usize, ProxyError>)
    ensures
        match r {
            Ok(n) => complete(greeting_frame(buf@), buf@) == Ok::<nat, ProxyError>(n as nat),
            Err(e) => complete(greeting_frame(buf@), buf@) == Err::<nat, ProxyError>(e),
        },
{
    let n = greeting_needed(buf)?;
    if buf.len() < n {
        Err(ProxyError::Io)
    } else {
        Ok(n)
    }
}

/// The answer to every valid greeting: SOCKS5, no authentication.
pub fn greeting_reply() -> (r: Vec<u8>)
    ensures
        r@ == seq![SOCKS_VERSION, 0u8],
{
    vec![SOCKS_VERSION, 0u8]
}

/// Decodes a CONNECT request. Bytes after the request are ignored.
pub fn parse_request(buf: &[u8]) -> (r: Result<ParsedRequest, ProxyError>)
    ensures
        match r {
            Ok(p) => {
                &&& complete(request_frame(buf@), buf@) == Ok::<nat, ProxyError>(p.raw@.len())
                &&& p.raw@ == buf@.subrange(0, p.raw@.len() as int)
                &&& p.kind == (if buf@[3] == ATYP_IPV4 {
                    AddressKind::Ipv4
                } else {
                    AddressKind::Domain
                })
                &&& p.host@ == request_host(buf@)
                &&& p.port as nat == request_port(buf@, p.raw@.len())
                &&& p.wf()
            },
            Err(e) => complete(request_frame(buf@), buf@) == Err::<nat, ProxyError>(e),
        },
{
    let n = request_needed(buf)?;
    if buf.len() < n {
        return Err(ProxyError::Io);
    }
    let kind = if buf[3] == ATYP_IPV4 {
        AddressKind::Ipv4
    } else {
        AddressKind::Domain
    };
    let host = if buf[3] == ATYP_IPV4 {
        slice_to_vec(slice_subrange(buf, 4, 8))
    } else {
        slice_to_vec(slice_subrange(buf, 5, 5 + buf[4] as usize))
    };
    let port = buf[n - 2] as u16 * 256 + buf[n - 1] as u16;
    let raw = slice_to_vec(slice_subrange(buf, 0, n));
    Ok(ParsedRequest { kind, host, port, raw })
}

/// The length of the reply frame whose first bytes are `b`: a request's
/// layout, with IPv6 addresses allowed since an upstream may bind one.
pub open spec fn reply_frame(b: Seq<u8>) -> Result<nat, ProxyError> {
    if b.len() < 4 {
        Ok(4)
    } else if b[3] == ATYP_IPV4 {
        Ok(10)
    } else if b[3] == ATYP_IPV6 {
        Ok(22)
    } else if b[3] == ATYP_DOMAIN {
        if b.len() < 5 {
            Ok(5)
        } else {
            Ok(7 + b[4] as nat)
        }
    } else {
        Err(ProxyError::Protocol(ProtocolError::InvalidAddressType))
    }
}

/// The total length of the upstream reply that begins with `received`, or
/// the protocol error that those bytes already show.
pub fn reply_needed(received: &[u8]) -> (r: Result<usize, ProxyError>)
    ensures
        match r {
            Ok(n) => reply_frame(received@) == Ok::<nat, ProxyError>(n as nat),
            Err(e) => reply_frame(received@) == Err::<nat, ProxyError>(e),
        },
{
    if received.len() < 4 {
        Ok(4)
    } else if received[3] == ATYP_IPV4 {
        Ok(10)
    } else if received[3] == ATYP_IPV6 {
        Ok(22)
    } else if received[3] == ATYP_DOMAIN {
        if received.len() < 5 {
            Ok(5)
        } else {
            Ok(7 + received[4] as usize)
        }
    } else {
        Err(ProxyError::Protocol(ProtocolError::InvalidAddressType))
    }
}

/// Decodes a greeting followed by a CONNECT request, as a client sends them.
pub fn parse_handshake(buf: &[u8]) -> (r: Result<ParsedRequest, ProxyError>)
    ensures
        match complete(greeting_frame(buf@), buf@) {
            Err(e) => r == Err::<ParsedRequest, ProxyError>(e),
            Ok(g) => {
                let rest = buf@.subrange(g as int, buf@.len() as int);
                match r {
                    Ok(p) => {
                        &&& complete(request_frame(rest), rest) == Ok::<nat, ProxyError>(
                            p.raw@.len(),
                        )
                        &&& p.raw@ == rest.subrange(0, p.raw@.len() as int)
                        &&& p.kind == (if rest[3] == ATYP_IPV4 {
                            AddressKind::Ipv4
                        } else {
                            AddressKind::Domain
                        })
                        &&& p.host@ == request_host(rest)
                        &&& p.port as nat == request_port(rest, p.raw@.len())
                        &&& p.wf()
                    },
                    Err(e) => complete(request_frame(rest), rest) == Err::<nat, ProxyError>(e),
                }
            },
        },
{
    let g = parse_greeting(buf)?;
    let rest = slice_subrange(buf, g, buf.len());
    parse_request(rest)
}

/// An IPv4 CONNECT request decodes to exactly the address and the big-endian
/// port it carries, whatever their values, and formats as `a.b.c.d:port`.
pub proof fn lemma_ipv4_request(ver: u8, rsv: u8, a: u8, b: u8, c: u8, d: u8, hi: u8, lo: u8)
    ensures
        ({
            let buf = seq![ver, CMD_CONNECT, rsv, ATYP_IPV4, a, b, c, d, hi, lo];
            &&& complete(request_frame(buf), buf) == Ok::<nat, ProxyError>(10)
            &&& request_host(buf) == seq![a, b, c, d]
            &&& request_port(buf, 10) == be_port(hi, lo)
            &&& address_text(AddressKind::Ipv4, request_host(buf), request_port(buf, 10))
                == decimal(a as nat) + seq!['.'] + decimal(b as nat) + seq!['.'] + decimal(
                c as nat,
            ) + seq!['.'] + decimal(d as nat) + seq![':'] + decimal(be_port(hi, lo))
        }),
{
    let buf = seq![ver, CMD_CONNECT, rsv, ATYP_IPV4, a, b, c, d, hi, lo];
    assert(request_host(buf) =~= seq![a, b, c, d]);
}

/// A domain CONNECT request decodes to exactly its `len` domain bytes and the
/// two bytes after them as a big-endian port, for every length.
pub proof fn lemma_domain_request(ver: u8, rsv: u8, domain: Seq<u8>, hi: u8, lo: u8)
    requires
        domain.len() <= 255,
    ensures
        ({
            let n = 7 + domain.len();
            let buf = seq![ver, CMD_CONNECT, rsv, ATYP_DOMAIN, domain.len() as u8] + domain
                + seq![hi, lo];
            &&& complete(request_frame(buf), buf) == Ok::<nat, ProxyError>(n)
            &&& request_host(buf) == domain
            &&& request_port(buf, n) == be_port(hi, lo)
        }),
{
    let n = 7 + domain.len();
    let buf = seq![ver, CMD_CONNECT, rsv, ATYP_DOMAIN, domain.len() as u8] + domain + seq![hi, lo];
    assert(buf[4] == domain.len() as u8);
    assert(request_host(buf) =~= domain);
    assert(buf[n - 2] == hi);
    assert(buf[n - 1] == lo);
}

/// A greeting whose first byte is not the SOCKS5 marker fails with a protocol
/// error, however many bytes follow.
pub proof fn lemma_bad_version(b: Seq<u8>)
    requires
        b.len() >= 1,
        b[0] != SOCKS_VERSION,
    ensures
        complete(greeting_frame(b), b) == Err::<nat, ProxyError>(
            ProxyError::Protocol(ProtocolError::BadVersion),
        ),
{
}

/// A request whose command byte is not CONNECT fails with a protocol error,
/// however many bytes follow.
pub proof fn lemma_not_connect(b: Seq<u8>)
    requires
        b.len() >= 2,
        b[1] != CMD_CONNECT,
    ensures
        complete(request_frame(b), b) == Err::<nat, ProxyError>(
            ProxyError::Protocol(ProtocolError::UnsupportedCommand),
        ),
{
}

} // verus!
