//! The per-connection relay decisions: what the accept loop does with each
//! accept outcome, what each copy direction does with each read outcome, and
//! how the two directions' outcomes combine once both have concluded. The
//! sockets, tasks and copies themselves live in the unverified driver; it
//! feeds events in and carries the returned actions out.

use crate::wire::SocksError;
use vstd::prelude::*;

verus! {

/// Why one connection's relay ended in failure.
#[derive(Clone, Copy, Debug, PartialEq, Eq, Structural)]
pub enum RelayError {
    /// The transport connection to the proxy itself could not be opened.
    ProxyUnreachable,
    /// The SOCKS5 negotiation failed; the cause is kept.
    HandshakeFailed(SocksError),
    /// A directional copy reported an I/O error after the handshake.
    IoError,
}

/// One outcome of the listener waiting for an inbound connection.
#[derive(Clone, Copy, Debug, PartialEq, Eq, Structural)]
pub enum AcceptEvent {
    /// A connection was accepted.
    Accepted,
    /// The listener itself is closed; there will be no further connections.
    Closed,
    /// A transient accept error.
    AcceptFailed,
}

/// What the accept loop does next.
#[derive(Clone, Copy, Debug, PartialEq, Eq, Structural)]
pub enum AcceptAction {
    /// Spawn an independent relay task for the accepted connection and keep
    /// accepting without waiting for it.
    SpawnRelay,
    /// Return success: the listener is closed.
    Stop,
    /// Log and keep accepting; one bad accept never stops the listener.
    KeepListening,
}

/// The accept loop's decision for one accept outcome.
pub open spec fn spec_accept_action(e: AcceptEvent) -> AcceptAction {
    match e {
        AcceptEvent::Accepted => AcceptAction::SpawnRelay,
        AcceptEvent::Closed => AcceptAction::Stop,
        AcceptEvent::AcceptFailed => AcceptAction::KeepListening,
    }
}

/// Decides what the accept loop does with one outcome. The decision is a
/// function of that outcome alone — it carries no state — so every accepted
/// connection gets its own relay task no matter how earlier connections
/// fared, and only listener closure ends the loop.
pub fn accept_action(e: &AcceptEvent) -> (r: AcceptAction)
    ensures
        r == spec_accept_action(*e),
        r is SpawnRelay <==> *e is Accepted,
        r is Stop <==> *e is Closed,
{
    match e {
        AcceptEvent::Accepted => AcceptAction::SpawnRelay,
        AcceptEvent::Closed => AcceptAction::Stop,
        AcceptEvent::AcceptFailed => AcceptAction::KeepListening,
    }
}

/// The state of one copy direction. Each direction owns exactly one read
/// half and one write half; the two directions of a relay are two
/// independent values of this type.
#[derive(Clone, Copy, Debug, PartialEq, Eq, Structural)]
pub enum DirectionState {
    /// Bytes are still flowing from source to destination.
    Streaming,
    /// The source reached end-of-stream and the destination's write side
    /// was ordered shut; the opposite direction is unaffected.
    SourceDrained,
    /// A read or write failed; this direction is over.
    DirectionFailed,
}

/// One outcome of reading from a direction's source.
pub enum ReadEvent {
    /// These bytes arrived.
    Data(Vec<u8>),
    /// The source reached end-of-stream.
    Eof,
    /// The read failed.
    ReadFailed,
}

/// What the driver does with a direction after a read.
pub enum CopyAction {
    /// Write exactly these bytes — the ones read, unchanged — to the
    /// destination, then read again.
    Forward(Vec<u8>),
    /// Shut down the destination's write side (half-close) and stop this
    /// direction; the opposite direction keeps running on its own.
    HalfClose,
    /// Stop this direction and record the failure.
    Abort,
}

/// Advances one copy direction by one read outcome. Bytes are forwarded
/// byte-for-byte with nothing injected; end-of-stream half-closes the
/// destination and nothing else; only this direction's state is involved,
/// so the opposite direction proceeds independently until its own source
/// drains.
pub fn direction_step(state: DirectionState, event: ReadEvent) -> (r: (
    DirectionState,
    CopyAction,
))
    requires
        state is Streaming,
    ensures
        event matches ReadEvent::Data(buf) ==> r.0 is Streaming && (r.1 matches CopyAction::Forward(
            out,
        ) && out@ == buf@),
        event is Eof ==> r.0 is SourceDrained && r.1 is HalfClose,
        event is ReadFailed ==> r.0 is DirectionFailed && r.1 is Abort,
{
    match event {
        ReadEvent::Data(buf) => (DirectionState::Streaming, CopyAction::Forward(buf)),
        ReadEvent::Eof => (DirectionState::SourceDrained, CopyAction::HalfClose),
        ReadEvent::ReadFailed => (DirectionState::DirectionFailed, CopyAction::Abort),
    }
}

/// Combines the final states of the two directions once both have
/// concluded — a join, not a race: the relay succeeds exactly when both
/// directions drained their sources cleanly, and an I/O error in either is
/// surfaced only after both are done, never suppressing the other's run.
pub fn relay_outcome(client_to_server: DirectionState, server_to_client: DirectionState) -> (r:
    Result<(), RelayError>)
    requires
        !(client_to_server is Streaming),
        !(server_to_client is Streaming),
    ensures
        r is Ok <==> (client_to_server is SourceDrained && server_to_client is SourceDrained),
        r is Err ==> r == Err::<(), RelayError>(RelayError::IoError),
{
    match (client_to_server, server_to_client) {
        (DirectionState::SourceDrained, DirectionState::SourceDrained) => Ok(()),
        _ => Err(RelayError::IoError),
    }
}

} // verus!
