//! Connecting to the configured peers: each one is tried once, in order, and
//! a peer that cannot be reached is reported and passed over.
//!
//! The caller makes the connections. After each attempt it hands the outcome
//! to [`connect_step`], which says what to report and which peer comes next.

use vstd::prelude::*;

verus! {

/// Connections to the configured peers are not kept for later sessions.
pub const PERSIST_PEERS: bool = false;

/// How far the connector has come through the list of peers.
#[derive(Clone, Copy, Debug, PartialEq, Eq, Structural)]
pub struct ConnectorState {
    /// The number of configured peers.
    pub peer_count: usize,
    /// The number of peers for which an attempt has been asked.
    pub attempted: usize,
}

/// What the caller tells the connector.
#[derive(Clone, Copy, Debug, PartialEq, Eq, Structural)]
pub enum ConnectEvent {
    /// Nothing has been attempted yet.
    Started,
    /// The last attempt that was asked for has connected.
    Connected,
    /// The last attempt that was asked for has failed.
    Failed,
}

/// A connection for the caller to attempt.
#[derive(Clone, Copy, Debug, PartialEq, Eq, Structural)]
pub struct ConnectRequest {
    /// The position of the peer in the configured list.
    pub peer: usize,
    /// Whether the connection is to be kept for later sessions.
    pub persist: bool,
}

/// What the caller does next.
#[derive(Clone, Copy, Debug, PartialEq, Eq, Structural)]
pub struct ConnectStep {
    /// The peer whose failed attempt is to be reported, if any.
    pub report_failure: Option<usize>,
    /// The connection to attempt next; `None` when every peer has been tried.
    pub connect: Option<ConnectRequest>,
}

impl ConnectorState {
    /// No more attempts have been asked than there are peers.
    pub open spec fn wf(self) -> bool {
        self.attempted <= self.peer_count
    }

    /// The state before the first attempt.
    pub open spec fn initial(peer_count: usize) -> ConnectorState {
        ConnectorState { peer_count, attempted: 0 }
    }

    /// The state before the first attempt on a list of `peer_count` peers.
    pub fn new(peer_count: usize) -> (state: ConnectorState)
        ensures
            state == ConnectorState::initial(peer_count),
            state.wf(),
    {
        ConnectorState { peer_count, attempted: 0 }
    }
}

/// The state and the step that follow an event: a failure is reported for
/// the peer of the last attempt, and whatever the event, the next peer of the
/// list is attempted as long as one is left.
pub open spec fn connect_step_spec(state: ConnectorState, event: ConnectEvent) -> (
    ConnectorState,
    ConnectStep,
) {
    let report_failure = if event == ConnectEvent::Failed && state.attempted > 0 {
        Some((state.attempted - 1) as usize)
    } else {
        None
    };
    if state.attempted < state.peer_count {
        (
            ConnectorState {
                peer_count: state.peer_count,
                attempted: (state.attempted + 1) as usize,
            },
            ConnectStep {
                report_failure,
                connect: Some(ConnectRequest { peer: state.attempted, persist: PERSIST_PEERS }),
            },
        )
    } else {
        (state, ConnectStep { report_failure, connect: None })
    }
}

/// Takes an event and gives the next state and what the caller does next.
pub fn connect_step(state: ConnectorState, event: ConnectEvent) -> (next: (
    ConnectorState,
    ConnectStep,
))
    requires
        state.wf(),
    ensures
        next == connect_step_spec(state, event),
        next.0.wf(),
{
    let report_failure = if event == ConnectEvent::Failed && state.attempted > 0 {
        Some(state.attempted - 1)
    } else {
        None
    };
    if state.attempted < state.peer_count {
        (
            ConnectorState { peer_count: state.peer_count, attempted: state.attempted + 1 },
            ConnectStep {
                report_failure,
                connect: Some(ConnectRequest { peer: state.attempted, persist: PERSIST_PEERS }),
            },
        )
    } else {
        (state, ConnectStep { report_failure, connect: None })
    }
}

/// The event that tells the outcome of an attempt.
pub open spec fn outcome_event(connected: bool) -> ConnectEvent {
    if connected {
        ConnectEvent::Connected
    } else {
        ConnectEvent::Failed
    }
}

/// The peers that are attempted, in order, when the connector runs from
/// `state` on `event` and the attempts end as `outcomes` says, one outcome for
/// each attempt.
pub open spec fn attempts(state: ConnectorState, event: ConnectEvent, outcomes: Seq<bool>) -> Seq<
    usize,
>
    decreases outcomes.len(),
{
    let (next, step) = connect_step_spec(state, event);
    match step.connect {
        None => Seq::empty(),
        Some(request) => if outcomes.len() == 0 {
            seq![request.peer]
        } else {
            seq![request.peer] + attempts(next, outcome_event(outcomes[0]), outcomes.drop_first())
        },
    }
}

/// The positions `from`, `from + 1`, ... below `to`.
pub open spec fn positions(from: usize, to: usize) -> Seq<usize> {
    Seq::new((to - from) as nat, |i: int| (from + i) as usize)
}

/// From any state, whatever the outcomes, the peers that have not been tried
/// are attempted one after the other, none left out and none twice.
pub proof fn lemma_remaining_peers_attempted(
    state: ConnectorState,
    event: ConnectEvent,
    outcomes: Seq<bool>,
)
    requires
        state.wf(),
        outcomes.len() >= state.peer_count - state.attempted,
    ensures
        attempts(state, event, outcomes) == positions(state.attempted, state.peer_count),
    decreases outcomes.len(),
{
    let (next, step) = connect_step_spec(state, event);
    if state.attempted < state.peer_count {
        if outcomes.len() > 0 {
            lemma_remaining_peers_attempted(
                next,
                outcome_event(outcomes[0]),
                outcomes.drop_first(),
            );
            assert(seq![state.attempted] + positions(next.attempted, next.peer_count)
                =~= positions(state.attempted, state.peer_count));
        } else {
            assert(seq![state.attempted] =~= positions(state.attempted, state.peer_count));
        }
    } else {
        assert(Seq::<usize>::empty() =~= positions(state.attempted, state.peer_count));
    }
}

/// A failed connection does not keep the peers after it from being tried:
/// with one outcome for each peer, every peer of the list is attempted once,
/// in the order of the list, whichever attempts fail.
pub proof fn lemma_every_peer_attempted(peer_count: usize, outcomes: Seq<bool>)
    requires
        outcomes.len() == peer_count,
    ensures
        attempts(ConnectorState::initial(peer_count), ConnectEvent::Started, outcomes)
            == positions(0, peer_count),
{
    lemma_remaining_peers_attempted(
        ConnectorState::initial(peer_count),
        ConnectEvent::Started,
        outcomes,
    );
}

/// The peer that is attempted after a given attempt does not depend on how
/// that attempt ended.
pub proof fn lemma_next_peer_whatever_the_outcome(state: ConnectorState)
    ensures
        connect_step_spec(state, ConnectEvent::Failed).0 == connect_step_spec(
            state,
            ConnectEvent::Connected,
        ).0,
        connect_step_spec(state, ConnectEvent::Failed).1.connect == connect_step_spec(
            state,
            ConnectEvent::Connected,
        ).1.connect,
{
}

} // verus!
