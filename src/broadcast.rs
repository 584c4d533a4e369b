use vstd::prelude::*;

verus! {

/// What the broadcaster reports while it relays a transaction.
#[derive(Debug, Clone)]
pub enum BroadcastEvent {
    /// Peers resolved or contacted, or one of them took the transaction.
    Progress,
    /// The broadcaster finished: whether the transaction was seen on the
    /// network, and the reason a peer gave if it was rejected.
    Done { seen: bool, reject: Option<String> },
    /// The broadcaster could not run.
    Failed(String),
    /// The broadcaster stopped, or its time ran out, without an outcome.
    Closed,
}

/// What to do after an event.
#[derive(Debug, Clone)]
pub enum BroadcastStep {
    /// Wait for the next event.
    Wait,
    /// The transaction went out.
    Sent,
    /// A peer rejected the transaction, for this reason.
    Rejected(String),
    /// Broadcasting failed, for this reason.
    Failed(String),
}

/// Decides what follows an event of the broadcaster. A rejection wins over
/// being seen; an outcome that never comes is a failure, never a wait
/// without end.
pub fn broadcast_step(ev: BroadcastEvent) -> (r: BroadcastStep)
    ensures
        ev is Progress ==> r is Wait,
        ev matches BroadcastEvent::Done { seen, reject } ==> match reject {
            Some(x) => r == BroadcastStep::Rejected(x),
            None => r is Sent,
        },
        ev matches BroadcastEvent::Failed(e) ==> r == BroadcastStep::Failed(e),
        ev is Closed ==> (r matches BroadcastStep::Failed(m) && m@ == "broadcast ended without an outcome"@),
{
    match ev {
        BroadcastEvent::Progress => BroadcastStep::Wait,
        BroadcastEvent::Done { seen: _, reject } => match reject {
            Some(x) => BroadcastStep::Rejected(x),
            None => BroadcastStep::Sent,
        },
        BroadcastEvent::Failed(e) => BroadcastStep::Failed(e),
        BroadcastEvent::Closed => BroadcastStep::Failed("broadcast ended without an outcome".to_string()),
    }
}

} // verus!
