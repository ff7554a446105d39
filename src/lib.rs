//! A SOCKS5 forward proxy whose upstream destination can be switched at runtime.
//!
//! The library holds the protocol logic: the handshake parser, the decimal and
//! address formatting, the validation of target addresses, the shared target
//! register and the choice of upstream for each session.
pub mod error;
pub mod handshake;
pub mod target;
pub mod text;
pub mod upstream;
