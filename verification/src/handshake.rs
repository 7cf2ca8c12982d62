//! The client side of the SOCKS5 negotiation as a state machine: each step
//! consumes one complete server reply (whose length the current phase
//! determines) and decides what to do next — send a request, read more,
//! finish, or fail. The I/O layer that owns the socket only writes what
//! `Send` hands it, reads exactly `bytes_needed` bytes, and never forwards a
//! relay byte before the machine reports `Done`.

use crate::target::Credential;
use crate::target::TargetAddress;
use crate::wire::spec_auth_status;
use crate::wire::spec_auth_request;
use crate::wire::spec_connect_header;
use crate::wire::spec_connect_request;
use crate::wire::spec_method_choice;
use crate::wire::spec_method_request;
use crate::wire::encode_auth_request;
use crate::wire::encode_connect_request;
use crate::wire::encode_method_request;
use crate::wire::parse_auth_reply;
use crate::wire::parse_connect_header;
use crate::wire::parse_method_reply;
use crate::wire::AuthMethod;
use crate::wire::SocksError;
use vstd::prelude::*;

verus! {

/// Where the negotiation stands: which server reply is awaited next.
/// `AwaitBoundTail` counts the bytes of the reply's bound address and port
/// that are still to come; `Done` and `Failed` are terminal.
#[derive(Clone, Copy, Debug, PartialEq, Eq, Structural)]
pub enum Phase {
    AwaitMethodSelection,
    AwaitAuthStatus,
    AwaitConnectHeader,
    AwaitBoundDomainLen,
    AwaitBoundTail { n: usize },
    Done,
    Failed,
}

impl Phase {
    pub open spec fn is_terminal(self) -> bool {
        self is Done || self is Failed
    }
}

/// What the driver must do after a step.
pub enum Action {
    /// Write these bytes to the proxy, then read the next reply.
    Send(Vec<u8>),
    /// Send nothing; read the next reply.
    Continue,
    /// The handshake succeeded: the same connection now carries relay bytes.
    Done,
    /// The handshake failed; the connection is abandoned.
    Fail(SocksError),
}

/// The ghost counterpart of `Action`, over mathematical sequences.
pub enum SpecAction {
    Send(Seq<u8>),
    Continue,
    Done,
    Fail(SocksError),
}

impl View for Action {
    type V = SpecAction;

    open spec fn view(&self) -> SpecAction {
        match self {
            Action::Send(b) => SpecAction::Send(b@),
            Action::Continue => SpecAction::Continue,
            Action::Done => SpecAction::Done,
            Action::Fail(e) => SpecAction::Fail(*e),
        }
    }
}

/// One in-progress SOCKS5 negotiation for one connection.
pub struct Handshake {
    pub target: TargetAddress,
    pub credential: Option<Credential>,
    pub phase: Phase,
}

/// How many reply bytes the machine needs before it can step: two for the
/// method selection, two for the authentication status, four for the
/// CONNECT reply header, one for a bound domain's length, then the rest of
/// the bound address and port.
pub open spec fn spec_bytes_needed(p: Phase) -> int {
    match p {
        Phase::AwaitMethodSelection => 2,
        Phase::AwaitAuthStatus => 2,
        Phase::AwaitConnectHeader => 4,
        Phase::AwaitBoundDomainLen => 1,
        Phase::AwaitBoundTail { n } => n as int,
        Phase::Done => 0,
        Phase::Failed => 0,
    }
}

/// The transition relation of the negotiation, over one complete server
/// reply. It is the message-level protocol: which reply is legal in which
/// phase, what is sent in answer, and which error ends the attempt.
pub open spec fn spec_step(h: Handshake, input: Seq<u8>) -> (Phase, SpecAction)
    recommends
        input.len() == spec_bytes_needed(h.phase),
{
    match h.phase {
        Phase::AwaitMethodSelection => {
            match spec_method_choice(h.credential is Some, input[0], input[1]) {
                Ok(AuthMethod::NoAuth) => (
                    Phase::AwaitConnectHeader,
                    SpecAction::Send(spec_connect_request(h.target)),
                ),
                Ok(AuthMethod::UserPass) => {
                    match h.credential {
                        Some(c) => (Phase::AwaitAuthStatus, SpecAction::Send(spec_auth_request(c))),
                        // Unreachable: username/password is accepted only when offered,
                        // and it is offered only with a credential.
                        None => (Phase::Failed, SpecAction::Fail(SocksError::ProtocolViolation)),
                    }
                },
                Err(e) => (Phase::Failed, SpecAction::Fail(e)),
            }
        },
        Phase::AwaitAuthStatus => {
            match spec_auth_status(input[0], input[1]) {
                Ok(_) => (Phase::AwaitConnectHeader, SpecAction::Send(spec_connect_request(h.target))),
                Err(e) => (Phase::Failed, SpecAction::Fail(e)),
            }
        },
        Phase::AwaitConnectHeader => {
            match spec_connect_header(input[0], input[1], input[3]) {
                Ok(atyp) => {
                    if atyp == 1 {
                        (Phase::AwaitBoundTail { n: 6 }, SpecAction::Continue)
                    } else if atyp == 4 {
                        (Phase::AwaitBoundTail { n: 18 }, SpecAction::Continue)
                    } else {
                        (Phase::AwaitBoundDomainLen, SpecAction::Continue)
                    }
                },
                Err(e) => (Phase::Failed, SpecAction::Fail(e)),
            }
        },
        Phase::AwaitBoundDomainLen => (
            Phase::AwaitBoundTail { n: (input[0] + 2) as usize },
            SpecAction::Continue,
        ),
        Phase::AwaitBoundTail { .. } => (Phase::Done, SpecAction::Done),
        // Terminal phases never move.
        Phase::Done => (Phase::Done, SpecAction::Fail(SocksError::ProtocolViolation)),
        Phase::Failed => (Phase::Failed, SpecAction::Fail(SocksError::ProtocolViolation)),
    }
}

impl Handshake {
    /// The configuration is well formed: the target and any credential can
    /// be encoded.
    pub open spec fn wf(self) -> bool {
        &&& self.target.is_valid()
        &&& (self.credential matches Some(c) ==> c.is_valid())
    }

    /// Begins a negotiation: the machine awaiting the method selection,
    /// together with the method-negotiation request to send first.
    pub fn start(target: TargetAddress, credential: Option<Credential>) -> (r: (
        Handshake,
        Vec<u8>,
    ))
        requires
            target.is_valid(),
            credential matches Some(c) ==> c.is_valid(),
        ensures
            r.0 == (Handshake { target, credential, phase: Phase::AwaitMethodSelection }),
            r.0.wf(),
            r.1@ == spec_method_request(credential is Some),
    {
        let request = encode_method_request(credential.is_some());
        (Handshake { target, credential, phase: Phase::AwaitMethodSelection }, request)
    }

    /// How many bytes of server reply to read before the next `step`.
    pub fn bytes_needed(&self) -> (r: usize)
        ensures
            r == spec_bytes_needed(self.phase),
    {
        match self.phase {
            Phase::AwaitMethodSelection => 2,
            Phase::AwaitAuthStatus => 2,
            Phase::AwaitConnectHeader => 4,
            Phase::AwaitBoundDomainLen => 1,
            Phase::AwaitBoundTail { n } => n,
            Phase::Done => 0,
            Phase::Failed => 0,
        }
    }

    /// Whether the negotiation has succeeded: only then may relay bytes flow.
    pub fn is_done(&self) -> (r: bool)
        ensures
            r == (self.phase is Done),
    {
        match self.phase {
            Phase::Done => true,
            _ => false,
        }
    }

    /// Consumes one complete server reply and advances the negotiation,
    /// exactly as `spec_step` says. The target and credential never change.
    pub fn step(&mut self, input: &Vec<u8>) -> (r: Action)
        requires
            old(self).wf(),
            !old(self).phase.is_terminal(),
            input@.len() == spec_bytes_needed(old(self).phase),
        ensures
            final(self).wf(),
            final(self).target == old(self).target,
            final(self).credential == old(self).credential,
            (final(self).phase, r@) == spec_step(*old(self), input@),
    {
        let phase = self.phase;
        match phase {
            Phase::AwaitMethodSelection => {
                match parse_method_reply(self.credential.is_some(), input[0], input[1]) {
                    Ok(AuthMethod::NoAuth) => {
                        self.phase = Phase::AwaitConnectHeader;
                        Action::Send(encode_connect_request(&self.target))
                    },
                    Ok(AuthMethod::UserPass) => {
                        match &self.credential {
                            Some(c) => {
                                let request = encode_auth_request(c);
                                self.phase = Phase::AwaitAuthStatus;
                                Action::Send(request)
                            },
                            None => {
                                self.phase = Phase::Failed;
                                Action::Fail(SocksError::ProtocolViolation)
                            },
                        }
                    },
                    Err(e) => {
                        self.phase = Phase::Failed;
                        Action::Fail(e)
                    },
                }
            },
            Phase::AwaitAuthStatus => {
                match parse_auth_reply(input[0], input[1]) {
                    Ok(_) => {
                        self.phase = Phase::AwaitConnectHeader;
                        Action::Send(encode_connect_request(&self.target))
                    },
                    Err(e) => {
                        self.phase = Phase::Failed;
                        Action::Fail(e)
                    },
                }
            },
            Phase::AwaitConnectHeader => {
                match parse_connect_header(input[0], input[1], input[3]) {
                    Ok(atyp) => {
                        if atyp == 1 {
                            self.phase = Phase::AwaitBoundTail { n: 6 };
                        } else if atyp == 4 {
                            self.phase = Phase::AwaitBoundTail { n: 18 };
                        } else {
                            self.phase = Phase::AwaitBoundDomainLen;
                        }
                        Action::Continue
                    },
                    Err(e) => {
                        self.phase = Phase::Failed;
                        Action::Fail(e)
                    },
                }
            },
            Phase::AwaitBoundDomainLen => {
                let n = input[0] as usize;
                self.phase = Phase::AwaitBoundTail { n: n + 2 };
                Action::Continue
            },
            Phase::AwaitBoundTail { .. } => {
                self.phase = Phase::Done;
                Action::Done
            },
            Phase::Done => Action::Fail(SocksError::ProtocolViolation),
            Phase::Failed => Action::Fail(SocksError::ProtocolViolation),
        }
    }
}

/// A strict order on the phases of one negotiation: every live step moves
/// to a strictly later phase, so no phase is ever entered twice in a run.
pub open spec fn phase_rank(p: Phase) -> int {
    match p {
        Phase::AwaitMethodSelection => 0,
        Phase::AwaitAuthStatus => 1,
        Phase::AwaitConnectHeader => 2,
        Phase::AwaitBoundDomainLen => 3,
        Phase::AwaitBoundTail { .. } => 4,
        Phase::Done => 5,
        Phase::Failed => 5,
    }
}

/// Every step of a live negotiation strictly advances the phase. Together
/// with `lemma_connect_request_exactly_on_entry` this makes the CONNECT
/// request a once-per-connection event: it is emitted exactly on entry into
/// `AwaitConnectHeader`, and no run can enter that phase twice.
pub proof fn lemma_step_advances(h: Handshake, input: Seq<u8>)
    requires
        !h.phase.is_terminal(),
        input.len() == spec_bytes_needed(h.phase),
    ensures
        phase_rank(spec_step(h, input).0) > phase_rank(h.phase),
{
}

/// The CONNECT request is emitted exactly on the transition into
/// `AwaitConnectHeader`, and the only other thing a step can send is the
/// authentication request on the way into `AwaitAuthStatus`. So each
/// negotiation sends the CONNECT request for its own target at most once,
/// and sends it if and only if it reaches the CONNECT phase.
pub proof fn lemma_connect_request_exactly_on_entry(h: Handshake, input: Seq<u8>)
    requires
        h.wf(),
        !h.phase.is_terminal(),
        input.len() == spec_bytes_needed(h.phase),
    ensures
        (spec_step(h, input).1 == SpecAction::Send(spec_connect_request(h.target))) <==> (
        spec_step(h, input).0 is AwaitConnectHeader),
        spec_step(h, input).1 is Send ==> (spec_step(h, input).0 is AwaitConnectHeader
            || spec_step(h, input).0 is AwaitAuthStatus),
{
    if h.phase is AwaitMethodSelection && h.credential is Some {
        let c = h.credential->0;
        assert(spec_auth_request(c)[0] == 1u8);
        assert(spec_connect_request(h.target)[0] == 5u8);
        assert(spec_auth_request(c) != spec_connect_request(h.target));
    }
}

/// An entire negotiation replayed over ghost data: `replies[i]` is the i-th
/// complete server reply handed to `step`. The run stops at the first
/// terminal phase, or when the replies run out.
pub open spec fn spec_run(h: Handshake, replies: Seq<Seq<u8>>) -> Handshake
    decreases replies.len(),
{
    if replies.len() == 0 || h.phase.is_terminal() {
        h
    } else {
        let (next, _) = spec_step(h, replies[0]);
        spec_run(
            Handshake { target: h.target, credential: h.credential, phase: next },
            replies.drop_first(),
        )
    }
}

/// How many steps of the run emit this connection's CONNECT request.
pub open spec fn spec_connect_sends(h: Handshake, replies: Seq<Seq<u8>>) -> int
    decreases replies.len(),
{
    if replies.len() == 0 || h.phase.is_terminal() {
        0
    } else {
        let (next, action) = spec_step(h, replies[0]);
        let here: int = if action == SpecAction::Send(spec_connect_request(h.target)) {
            1
        } else {
            0
        };
        here + spec_connect_sends(
            Handshake { target: h.target, credential: h.credential, phase: next },
            replies.drop_first(),
        )
    }
}

/// Over a whole negotiation and any sequence of server replies whatsoever,
/// the CONNECT request is sent at most once — there are no retries — and it
/// is sent exactly once whenever the negotiation succeeds. Once the phase
/// is at or past `AwaitConnectHeader` the request is never sent again.
pub proof fn lemma_connect_sent_at_most_once(h: Handshake, replies: Seq<Seq<u8>>)
    requires
        h.wf(),
    ensures
        phase_rank(h.phase) < 2 ==> spec_connect_sends(h, replies) <= 1,
        phase_rank(h.phase) < 2 && spec_run(h, replies).phase is Done ==> spec_connect_sends(
            h,
            replies,
        ) == 1,
        phase_rank(h.phase) >= 2 ==> spec_connect_sends(h, replies) == 0,
    decreases replies.len(),
{
    if replies.len() == 0 || h.phase.is_terminal() {
    } else {
        let (next, action) = spec_step(h, replies[0]);
        let h2 = Handshake { target: h.target, credential: h.credential, phase: next };
        lemma_connect_sent_at_most_once(h2, replies.drop_first());
        if h.phase is AwaitMethodSelection && h.credential is Some {
            // The authentication request is not the CONNECT request: their
            // first bytes are the two distinct version numbers.
            let c = h.credential->0;
            assert(spec_auth_request(c)[0] == 1u8);
            assert(spec_connect_request(h.target)[0] == 5u8);
        }
    }
}

/// A refusing server reply at any step fails that connection's negotiation
/// with the matching error and leaves it in the terminal `Failed` phase:
/// `0xFF` during method selection, a non-zero authentication status, or a
/// non-zero CONNECT reply code. `Done` — the only gate to the byte-copy
/// phase — is reached solely from a fully answered CONNECT, so no relay
/// byte is ever forwarded after such a reply.
pub proof fn lemma_refusal_fails_before_relay(h: Handshake, input: Seq<u8>)
    requires
        input.len() == spec_bytes_needed(h.phase),
    ensures
        h.phase is AwaitMethodSelection && input[0] == 5 && input[1] == 0xff ==> spec_step(h, input)
            == (Phase::Failed, SpecAction::Fail(SocksError::NoAcceptableAuthMethod)),
        h.phase is AwaitAuthStatus && input[0] == 1 && input[1] != 0 ==> spec_step(h, input) == (
            Phase::Failed,
            SpecAction::Fail(SocksError::AuthenticationFailed),
        ),
        h.phase is AwaitConnectHeader && input[0] == 5 && input[1] != 0 ==> spec_step(h, input)
            == (Phase::Failed, SpecAction::Fail(SocksError::ServerReply(input[1]))),
        spec_step(h, input).1 is Done <==> h.phase is AwaitBoundTail,
        h.phase is Failed ==> spec_step(h, input).0 is Failed,
{
}

} // verus!
