//! What the events of a running session call for.
//!
//! Once per tick the events that the session has queued are drained and
//! looked at in order. Most are notifications that need no action. A
//! detected desync is fatal: peers that disagree about the state cannot be
//! brought back together, so the game must stop rather than play on.

use vstd::prelude::*;

verus! {

/// The kind of session that is running.
#[derive(Debug, Clone, Copy, PartialEq, Eq, Structural)]
pub enum SessionKind {
    SyncTest,
    P2P,
    Spectator,
}

/// A notification of the session layer. `addr` is the id of the peer it
/// concerns, as a number.
#[derive(Debug, Clone, Copy, PartialEq, Eq, Structural)]
pub enum SessionEvent {
    Synchronizing { addr: u128, total: u32, count: u32 },
    Synchronized { addr: u128 },
    Disconnected { addr: u128 },
    NetworkInterrupted { addr: u128, disconnect_timeout: u128 },
    NetworkResumed { addr: u128 },
    WaitRecommendation { skip_frames: u32 },
    DesyncDetected { frame: i32, local_checksum: u128, remote_checksum: u128, addr: u128 },
}

/// A condition on which the process must halt.
#[derive(Debug, Clone, Copy, PartialEq, Eq, Structural)]
pub enum FatalError {
    /// The local checksum of `frame` differs from that of the peer `addr`.
    Desync { frame: i32, local_checksum: u128, remote_checksum: u128, addr: u128 },
    /// The running session is of a kind that this game never starts.
    UnexpectedSession,
}

impl FatalError {
    /// The message to halt with.
    pub fn message(&self) -> (text: String)
        ensures
            self is Desync ==> text@ == "desynced!"@,
            self is UnexpectedSession ==> text@ == "only p2p and synctest sessions are supported"@,
    {
        match self {
            FatalError::Desync { .. } => "desynced!".to_owned(),
            FatalError::UnexpectedSession => "only p2p and synctest sessions are supported".to_owned(),
        }
    }
}

/// The error that a desync event stands for.
pub open spec fn desync_of(event: SessionEvent) -> FatalError
    recommends
        event is DesyncDetected,
{
    FatalError::Desync {
        frame: event->frame,
        local_checksum: event->local_checksum,
        remote_checksum: event->remote_checksum,
        addr: event->DesyncDetected_addr,
    }
}

/// No event before index `n` reports a desync.
pub open spec fn in_sync_until(events: Seq<SessionEvent>, n: int) -> bool {
    forall|i: int| 0 <= i < n && i < events.len() ==> !(#[trigger] events[i] is DesyncDetected)
}

/// What a tick has to do about the drained events.
///
/// A self-test session has no event stream and nothing to act on. In a
/// peer-to-peer session every event is benign except a detected desync; the
/// first one among `events` is returned as the error to halt on. A spectator
/// session is never started by this game, so finding one running is an error
/// by itself.
pub fn log_ggrs_events(kind: SessionKind, events: &Vec<SessionEvent>) -> (outcome: Result<
    (),
    FatalError,
>)
    ensures
        kind is SyncTest ==> outcome is Ok,
        kind is Spectator ==> outcome == Err::<(), FatalError>(FatalError::UnexpectedSession),
        kind is P2P ==> (outcome is Ok <==> in_sync_until(events@, events@.len() as int)),
        kind is P2P && outcome is Err ==> exists|i: int|
            0 <= i < events@.len() && in_sync_until(events@, i) && (#[trigger] events@[i])
                is DesyncDetected && outcome == Err::<(), FatalError>(desync_of(events@[i])),
{
    match kind {
        SessionKind::P2P => {
            let mut i: usize = 0;
            while i < events.len()
                invariant
                    kind is P2P,
                    i <= events.len(),
                    in_sync_until(events@, i as int),
                decreases events.len() - i,
            {
                if let SessionEvent::DesyncDetected { frame, local_checksum, remote_checksum, addr } =
                    events[i] {
                    return Err(FatalError::Desync { frame, local_checksum, remote_checksum, addr });
                }
                i += 1;
            }
            Ok(())
        },
        SessionKind::SyncTest => Ok(()),
        SessionKind::Spectator => Err(FatalError::UnexpectedSession),
    }
}

} // verus!
