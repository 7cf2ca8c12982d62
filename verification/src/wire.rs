//! SOCKS5 wire messages: the exact bytes of each client request and the
//! meaning of each server reply, per RFC 1928 and RFC 1929.

use crate::target::Credential;
use crate::target::TargetAddress;
use vstd::prelude::*;

verus! {

/// Failure of a SOCKS5 negotiation, one variant per cause so that callers
/// can tell them apart.
#[derive(Clone, Copy, Debug, PartialEq, Eq, Structural)]
pub enum SocksError {
    /// The server selected no method the client offered (reply `0xFF`).
    NoAcceptableAuthMethod,
    /// Username/password authentication was attempted and the server
    /// reported a non-zero status.
    AuthenticationFailed,
    /// A reply was malformed: wrong version byte, an unknown selection or
    /// address type, or an over-long field at construction time.
    ProtocolViolation,
    /// The CONNECT request was refused with this non-zero reply code.
    ServerReply(u8),
}

/// The authentication method the server selected during negotiation.
#[derive(Clone, Copy, Debug, PartialEq, Eq, Structural)]
pub enum AuthMethod {
    NoAuth,
    UserPass,
}

/// The authentication methods the client offers: `0x00` (no authentication)
/// always, `0x02` (username/password) exactly when a credential is
/// configured.
pub open spec fn spec_offered_methods(offer_userpass: bool) -> Seq<u8> {
    if offer_userpass {
        seq![0u8, 2u8]
    } else {
        seq![0u8]
    }
}

/// The method-negotiation request: version `0x05`, a method count, then the
/// offered method bytes.
pub open spec fn spec_method_request(offer_userpass: bool) -> Seq<u8> {
    seq![5u8, spec_offered_methods(offer_userpass).len() as u8] + spec_offered_methods(
        offer_userpass,
    )
}

pub fn encode_method_request(offer_userpass: bool) -> (r: Vec<u8>)
    ensures
        r@ == spec_method_request(offer_userpass),
{
    let mut r: Vec<u8> = Vec::new();
    r.push(5u8);
    if offer_userpass {
        r.push(2u8);
        r.push(0u8);
        r.push(2u8);
    } else {
        r.push(1u8);
        r.push(0u8);
    }
    proof {
        assert(r@ =~= spec_method_request(offer_userpass));
    }
    r
}

/// What a method-selection reply `[version, method]` means, given whether
/// username/password was offered. A selection the client never offered is a
/// protocol violation.
pub open spec fn spec_method_choice(offered_userpass: bool, version: u8, method: u8) -> Result<
    AuthMethod,
    SocksError,
> {
    if version != 5 {
        Err(SocksError::ProtocolViolation)
    } else if method == 0xff {
        Err(SocksError::NoAcceptableAuthMethod)
    } else if method == 0 {
        Ok(AuthMethod::NoAuth)
    } else if method == 2 && offered_userpass {
        Ok(AuthMethod::UserPass)
    } else {
        Err(SocksError::ProtocolViolation)
    }
}

pub fn parse_method_reply(offered_userpass: bool, version: u8, method: u8) -> (r: Result<
    AuthMethod,
    SocksError,
>)
    ensures
        r == spec_method_choice(offered_userpass, version, method),
{
    if version != 5 {
        Err(SocksError::ProtocolViolation)
    } else if method == 0xff {
        Err(SocksError::NoAcceptableAuthMethod)
    } else if method == 0 {
        Ok(AuthMethod::NoAuth)
    } else if method == 2 && offered_userpass {
        Ok(AuthMethod::UserPass)
    } else {
        Err(SocksError::ProtocolViolation)
    }
}

/// Appends all of `b` to `r`.
fn push_bytes(r: &mut Vec<u8>, b: &Vec<u8>)
    ensures
        final(r)@ == old(r)@ + b@,
{
    let mut i: usize = 0;
    while i < b.len()
        invariant
            i <= b@.len(),
            r@ == old(r)@ + b@.take(i as int),
        decreases b@.len() - i,
    {
        r.push(b[i]);
        i += 1;
        proof {
            assert(r@ =~= old(r)@ + b@.take(i as int));
        }
    }
    proof {
        assert(r@ =~= old(r)@ + b@);
    }
}

/// The big-endian encoding of a 16-bit port.
pub open spec fn spec_port_bytes(port: u16) -> Seq<u8> {
    seq![(port / 256) as u8, (port % 256) as u8]
}

/// Appends the big-endian encoding of `port` to `r`.
fn push_port(r: &mut Vec<u8>, port: u16)
    ensures
        final(r)@ == old(r)@ + spec_port_bytes(port),
{
    r.push((port / 256) as u8);
    r.push((port % 256) as u8);
    proof {
        assert(r@ =~= old(r)@ + spec_port_bytes(port));
    }
}

/// The username/password sub-negotiation request, per RFC 1929: version
/// `0x01`, username length and bytes, password length and bytes.
pub open spec fn spec_auth_request(c: Credential) -> Seq<u8>
    recommends
        c.is_valid(),
{
    seq![1u8, c.username@.len() as u8] + c.username@ + seq![c.password@.len() as u8] + c.password@
}

pub fn encode_auth_request(c: &Credential) -> (r: Vec<u8>)
    requires
        c.is_valid(),
    ensures
        r@ == spec_auth_request(*c),
{
    let mut r: Vec<u8> = Vec::new();
    r.push(1u8);
    r.push(c.username.len() as u8);
    push_bytes(&mut r, &c.username);
    r.push(c.password.len() as u8);
    push_bytes(&mut r, &c.password);
    proof {
        assert(r@ =~= spec_auth_request(*c));
    }
    r
}

/// What an authentication reply `[version, status]` means: version `0x01`
/// and status zero is success; a non-zero status is an authentication
/// failure; a wrong version is a protocol violation.
pub open spec fn spec_auth_status(version: u8, status: u8) -> Result<(), SocksError> {
    if version != 1 {
        Err(SocksError::ProtocolViolation)
    } else if status != 0 {
        Err(SocksError::AuthenticationFailed)
    } else {
        Ok(())
    }
}

pub fn parse_auth_reply(version: u8, status: u8) -> (r: Result<(), SocksError>)
    ensures
        r == spec_auth_status(version, status),
{
    if version != 1 {
        Err(SocksError::ProtocolViolation)
    } else if status != 0 {
        Err(SocksError::AuthenticationFailed)
    } else {
        Ok(())
    }
}

/// The CONNECT request: version `0x05`, command `0x01`, reserved `0x00`,
/// the address-type byte of the target's family, the address bytes, and the
/// big-endian port.
pub open spec fn spec_connect_request(t: TargetAddress) -> Seq<u8>
    recommends
        t.is_valid(),
{
    seq![5u8, 1u8, 0u8, t.spec_atyp()] + t.spec_addr_bytes() + spec_port_bytes(t.spec_port())
}

pub fn encode_connect_request(target: &TargetAddress) -> (r: Vec<u8>)
    requires
        target.is_valid(),
    ensures
        r@ == spec_connect_request(*target),
{
    let mut r: Vec<u8> = Vec::new();
    r.push(5u8);
    r.push(1u8);
    r.push(0u8);
    match target {
        TargetAddress::Ipv4 { addr, port } => {
            r.push(1u8);
            let mut i: usize = 0;
            while i < 4
                invariant
                    i <= 4,
                    r@ == seq![5u8, 1u8, 0u8, 1u8] + addr@.take(i as int),
                decreases 4 - i,
            {
                r.push(addr[i]);
                i += 1;
                proof {
                    assert(r@ =~= seq![5u8, 1u8, 0u8, 1u8] + addr@.take(i as int));
                }
            }
            proof {
                assert(addr@.take(4) =~= addr@);
            }
            push_port(&mut r, *port);
        },
        TargetAddress::Ipv6 { addr, port } => {
            r.push(4u8);
            let mut i: usize = 0;
            while i < 16
                invariant
                    i <= 16,
                    r@ == seq![5u8, 1u8, 0u8, 4u8] + addr@.take(i as int),
                decreases 16 - i,
            {
                r.push(addr[i]);
                i += 1;
                proof {
                    assert(r@ =~= seq![5u8, 1u8, 0u8, 4u8] + addr@.take(i as int));
                }
            }
            proof {
                assert(addr@.take(16) =~= addr@);
            }
            push_port(&mut r, *port);
        },
        TargetAddress::Domain { host, port } => {
            r.push(3u8);
            r.push(host.len() as u8);
            push_bytes(&mut r, host);
            push_port(&mut r, *port);
        },
    }
    proof {
        assert(r@ =~= spec_connect_request(*target));
    }
    r
}

/// What the first bytes of a CONNECT reply `[version, reply, reserved,
/// address-type]` mean: on version `0x05`, reply `0x00` and a known address
/// type, the address type is returned so the caller knows how much of the
/// bound address is still to come; a non-zero reply code is the server
/// refusing the connection with that code.
pub open spec fn spec_connect_header(version: u8, reply: u8, atyp: u8) -> Result<u8, SocksError> {
    if version != 5 {
        Err(SocksError::ProtocolViolation)
    } else if reply != 0 {
        Err(SocksError::ServerReply(reply))
    } else if atyp == 1 || atyp == 3 || atyp == 4 {
        Ok(atyp)
    } else {
        Err(SocksError::ProtocolViolation)
    }
}

pub fn parse_connect_header(version: u8, reply: u8, atyp: u8) -> (r: Result<u8, SocksError>)
    ensures
        r == spec_connect_header(version, reply, atyp),
{
    if version != 5 {
        Err(SocksError::ProtocolViolation)
    } else if reply != 0 {
        Err(SocksError::ServerReply(reply))
    } else if atyp == 1 || atyp == 3 || atyp == 4 {
        Ok(atyp)
    } else {
        Err(SocksError::ProtocolViolation)
    }
}

/// In every CONNECT request the address-type byte — the fourth byte on the
/// wire — is the one of the target's address family: `0x01` for IPv4,
/// `0x03` for a domain name, `0x04` for IPv6.
pub proof fn lemma_connect_request_atyp(t: TargetAddress)
    requires
        t.is_valid(),
    ensures
        spec_connect_request(t).len() >= 4,
        spec_connect_request(t)[3] == t.spec_atyp(),
        t is Ipv4 ==> spec_connect_request(t)[3] == 1,
        t is Domain ==> spec_connect_request(t)[3] == 3,
        t is Ipv6 ==> spec_connect_request(t)[3] == 4,
{
}

/// Method `0x02` is offered if and only if a credential is configured, and
/// method `0x00` is always offered; with no credential, no selection can
/// ever negotiate username/password, so the negotiated method is then
/// `0x00` or the handshake fails.
pub proof fn lemma_userpass_offered_iff_credential(offer_userpass: bool)
    ensures
        spec_offered_methods(offer_userpass).contains(2u8) <==> offer_userpass,
        spec_offered_methods(offer_userpass).contains(0u8),
        forall|version: u8, method: u8|
            spec_method_choice(false, version, method) != Ok::<AuthMethod, SocksError>(
                AuthMethod::UserPass,
            ),
{
    if offer_userpass {
        assert(spec_offered_methods(true)[1] == 2u8);
        assert(spec_offered_methods(true)[0] == 0u8);
    } else {
        assert(spec_offered_methods(false)[0] == 0u8);
        assert(forall|i: int|
            0 <= i < spec_offered_methods(false).len() ==> spec_offered_methods(false)[i] != 2u8);
    }
}

} // verus!
