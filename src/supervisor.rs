//! The session supervisor: watches the peer connection's state and decides
//! when the session is closed.

use vstd::prelude::*;

verus! {

/// The states a peer connection reports.
#[derive(Clone, Copy, PartialEq, Eq, Structural, Debug)]
pub enum PeerState {
    New,
    Connecting,
    Connected,
    Disconnected,
    Failed,
    Closed,
}

/// Holds the one-shot termination signal of a session.
#[derive(Clone, Copy, PartialEq, Eq, Structural, Debug)]
pub struct Supervisor {
    /// The termination signal has been sent.
    pub signalled: bool,
}

/// How many times the session is closed when `states` are reported one
/// after another to a supervisor whose signal has or has not been sent.
pub open spec fn teardowns(signalled: bool, states: Seq<PeerState>) -> nat
    decreases states.len(),
{
    if states.len() == 0 {
        0
    } else if states[0] == PeerState::Failed && !signalled {
        1 + teardowns(true, states.drop_first())
    } else {
        teardowns(signalled || states[0] == PeerState::Failed, states.drop_first())
    }
}

impl Supervisor {
    /// A supervisor whose signal has not been sent.
    pub fn new() -> (r: Supervisor)
        ensures
            !r.signalled,
    {
        Supervisor { signalled: false }
    }

    /// Takes a reported state; returns whether the session must be closed now.
    /// Only `Failed` closes a session, and only the first time it is reported.
    pub fn on_state_change(&mut self, s: PeerState) -> (close: bool)
        ensures
            close == (s == PeerState::Failed && !old(self).signalled),
            final(self).signalled == (old(self).signalled || s == PeerState::Failed),
    {
        if s == PeerState::Failed {
            let close = !self.signalled;
            self.signalled = true;
            close
        } else {
            false
        }
    }
}

proof fn lemma_signalled_never_closes(states: Seq<PeerState>)
    ensures
        teardowns(true, states) == 0,
    decreases states.len(),
{
    if states.len() > 0 {
        lemma_signalled_never_closes(states.drop_first());
    }
}

/// A session whose peer connection reports `states` is closed exactly once
/// if `Failed` is among them, however often, and never otherwise.
pub proof fn lemma_teardown_exactly_once(states: Seq<PeerState>)
    ensures
        teardowns(false, states) == (if states.contains(PeerState::Failed) {
            1nat
        } else {
            0nat
        }),
    decreases states.len(),
{
    if states.len() > 0 {
        let rest = states.drop_first();
        if states[0] == PeerState::Failed {
            lemma_signalled_never_closes(rest);
            assert(states.contains(PeerState::Failed)) by {
                assert(states[0] == PeerState::Failed);
            }
        } else {
            lemma_teardown_exactly_once(rest);
            assert(states.contains(PeerState::Failed) == rest.contains(PeerState::Failed)) by {
                if rest.contains(PeerState::Failed) {
                    let i = choose|i: int| 0 <= i < rest.len() && rest[i] == PeerState::Failed;
                    assert(states[i + 1] == PeerState::Failed);
                }
                if states.contains(PeerState::Failed) {
                    let i = choose|i: int| 0 <= i < states.len() && states[i] == PeerState::Failed;
                    assert(rest[i - 1] == PeerState::Failed);
                }
            }
        }
    }
}

} // verus!
