//! A transparent TCP relay: inbound connections are forwarded to one fixed
//! target address through a SOCKS5 proxy.
//!
//! This library holds the verified core: the SOCKS5 client handshake modelled
//! as a state machine over the exact bytes on the wire, the target-address and
//! credential data model, and the per-connection relay decisions. The I/O that
//! drives these (sockets, task spawning) lives outside the library.

pub mod handshake;
pub mod relay;
pub mod target;
pub mod wire;
