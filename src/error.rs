use vstd::prelude::*;

verus! {

/// A malformed or unsupported SOCKS5 message.
#[derive(Clone, Copy, Debug, PartialEq, Eq, Structural)]
pub enum ProtocolError {
    /// The greeting's version byte is not the SOCKS5 marker.
    BadVersion,
    /// The request asks for something other than CONNECT.
    UnsupportedCommand,
    /// The request's address type is neither IPv4 nor a domain name.
    InvalidAddressType,
}

/// Every way in which one session or one control request can fail.
#[derive(Clone, Copy, Debug, PartialEq, Eq, Structural)]
pub enum ProxyError {
    /// The client broke the protocol.
    Protocol(ProtocolError),
    /// A read or write failed, or a message ended before its last field.
    Io,
    /// The chosen upstream could not be reached.
    UpstreamUnreachable,
    /// A control request named a target that is not `IPv4:port`.
    InvalidTargetFormat,
}

} // verus!
