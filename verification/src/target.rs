//! The data model: the fixed target address, the optional proxy credential,
//! and the shared proxy configuration.

use crate::wire::SocksError;
use vstd::prelude::*;

verus! {

/// The fixed destination every inbound connection is relayed to. A domain
/// name is limited to 255 bytes, because the SOCKS5 domain length field is a
/// single byte; the `domain` constructor rejects anything longer, so no
/// well-formed target can be silently truncated on the wire.
#[derive(Clone, Debug)]
#[allow(inconsistent_fields)]
pub enum TargetAddress {
    Ipv4 { addr: [u8; 4], port: u16 },
    Ipv6 { addr: [u8; 16], port: u16 },
    Domain { host: Vec<u8>, port: u16 },
}

impl TargetAddress {
    /// A target is well formed when its SOCKS5 encoding exists: a domain
    /// name fits the one-byte length field.
    pub open spec fn is_valid(self) -> bool {
        match self {
            TargetAddress::Domain { host, .. } => host@.len() <= 255,
            _ => true,
        }
    }

    /// The SOCKS5 address-type byte of this address family:
    /// `0x01` IPv4, `0x03` domain name, `0x04` IPv6.
    pub open spec fn spec_atyp(self) -> u8 {
        match self {
            TargetAddress::Ipv4 { .. } => 1,
            TargetAddress::Domain { .. } => 3,
            TargetAddress::Ipv6 { .. } => 4,
        }
    }

    /// The address bytes as they appear in a CONNECT request: the raw
    /// octets for an IP address, a length byte followed by the name for a
    /// domain.
    pub open spec fn spec_addr_bytes(self) -> Seq<u8>
        recommends
            self.is_valid(),
    {
        match self {
            TargetAddress::Ipv4 { addr, .. } => addr@,
            TargetAddress::Domain { host, .. } => seq![host@.len() as u8] + host@,
            TargetAddress::Ipv6 { addr, .. } => addr@,
        }
    }

    /// The destination port.
    pub open spec fn spec_port(self) -> u16 {
        match self {
            TargetAddress::Ipv4 { port, .. } => port,
            TargetAddress::Domain { port, .. } => port,
            TargetAddress::Ipv6 { port, .. } => port,
        }
    }

    pub fn ipv4(addr: [u8; 4], port: u16) -> (r: TargetAddress)
        ensures
            r == (TargetAddress::Ipv4 { addr, port }),
            r.is_valid(),
    {
        TargetAddress::Ipv4 { addr, port }
    }

    pub fn ipv6(addr: [u8; 16], port: u16) -> (r: TargetAddress)
        ensures
            r == (TargetAddress::Ipv6 { addr, port }),
            r.is_valid(),
    {
        TargetAddress::Ipv6 { addr, port }
    }

    /// A domain-name target. A host longer than 255 bytes cannot be encoded
    /// (the SOCKS5 length field is one byte) and is rejected here, before
    /// any network activity.
    pub fn domain(host: Vec<u8>, port: u16) -> (r: Result<TargetAddress, SocksError>)
        ensures
            host@.len() <= 255 ==> r == Ok::<TargetAddress, SocksError>(
                TargetAddress::Domain { host, port },
            ),
            host@.len() > 255 ==> r == Err::<TargetAddress, SocksError>(
                SocksError::ProtocolViolation,
            ),
    {
        if host.len() > 255 {
            Err(SocksError::ProtocolViolation)
        } else {
            Ok(TargetAddress::Domain { host, port })
        }
    }
}

/// A username/password pair for SOCKS5 sub-negotiation. Each field is
/// limited to 255 bytes by its one-byte length field on the wire.
#[derive(Clone, Debug)]
pub struct Credential {
    pub username: Vec<u8>,
    pub password: Vec<u8>,
}

impl Credential {
    pub open spec fn is_valid(self) -> bool {
        self.username@.len() <= 255 && self.password@.len() <= 255
    }

    /// Builds a credential, rejecting a username or password that cannot be
    /// encoded in the one-byte length fields of the wire format.
    pub fn new(username: Vec<u8>, password: Vec<u8>) -> (r: Result<Credential, SocksError>)
        ensures
            username@.len() <= 255 && password@.len() <= 255 ==> r == Ok::<
                Credential,
                SocksError,
            >(Credential { username, password }),
            username@.len() > 255 || password@.len() > 255 ==> r == Err::<
                Credential,
                SocksError,
            >(SocksError::ProtocolViolation),
    {
        if username.len() > 255 || password.len() > 255 {
            Err(SocksError::ProtocolViolation)
        } else {
            Ok(Credential { username, password })
        }
    }
}

/// A credential is configured only when both a username and a password were
/// supplied; if either is absent the proxy is used without authentication.
pub fn credential_from_parts(username: Option<Vec<u8>>, password: Option<Vec<u8>>) -> (r: Result<
    Option<Credential>,
    SocksError,
>)
    ensures
        r == (match (username, password) {
            (Some(u), Some(p)) => {
                if u@.len() <= 255 && p@.len() <= 255 {
                    Ok::<Option<Credential>, SocksError>(
                        Some(Credential { username: u, password: p }),
                    )
                } else {
                    Err::<Option<Credential>, SocksError>(SocksError::ProtocolViolation)
                }
            },
            _ => Ok::<Option<Credential>, SocksError>(None),
        }),
{
    match (username, password) {
        (Some(u), Some(p)) => match Credential::new(u, p) {
            Ok(c) => Ok(Some(c)),
            Err(e) => Err(e),
        },
        _ => Ok(None),
    }
}

/// The proxy configuration shared, read only, by every relay task: the
/// proxy's own address and the optional credential.
#[derive(Clone, Debug)]
pub struct ProxyConfig {
    pub address: String,
    pub credential: Option<Credential>,
}

impl ProxyConfig {
    pub open spec fn is_valid(self) -> bool {
        self.credential matches Some(c) ==> c.is_valid()
    }

    pub fn new(address: String, credential: Option<Credential>) -> (r: ProxyConfig)
        ensures
            r == (ProxyConfig { address, credential }),
    {
        ProxyConfig { address, credential }
    }
}

} // verus!
