//! The per-channel lifecycle: when a channel announced by the remote peer
//! is connected to the upstream service, when the upstream-to-channel pump
//! starts, where inbound messages go, and when the upstream connection is
//! released.

use vstd::prelude::*;

verus! {

/// Where a channel's bridge stands.
#[derive(Clone, Copy, PartialEq, Eq, Structural, Debug)]
pub enum Phase {
    /// The channel object exists but the remote peer has not announced it.
    Idle,
    /// The upstream connection is being opened.
    Connecting,
    /// The upstream connection is open and inbound messages are written to it.
    Bridged,
    /// The upstream connection could not be opened; the channel stays open
    /// and carries nothing.
    Unbridged,
    /// The channel has closed.
    Closed,
}

/// What happened on a channel or to its upstream connection.
#[derive(Clone, Copy, PartialEq, Eq, Structural, Debug)]
pub enum ChannelEvent {
    /// The remote peer created the channel.
    Announced,
    /// The upstream connection is open.
    Connected,
    /// The upstream connection could not be opened.
    ConnectFailed,
    /// The channel signalled that it is open.
    Opened,
    /// A message arrived on the channel.
    Message,
    /// The channel closed.
    Closed,
}

/// What the caller must do in answer to an event.
#[derive(Clone, Copy, PartialEq, Eq, Structural, Debug)]
pub enum ChannelAction {
    /// Nothing.
    Nothing,
    /// Open one TCP connection to the upstream address.
    Connect,
    /// Report that the upstream address is unreachable.
    ReportConnectFailed,
    /// Start the pump that reads the upstream connection into the channel.
    StartPump,
    /// Hand the message to the upstream writer.
    Forward,
    /// Discard the message.
    Drop,
    /// Close the upstream connection.
    CloseUpstream,
}

/// The state of one channel's bridge.
#[derive(Clone, Copy, PartialEq, Eq, Structural, Debug)]
pub struct ChannelBridge {
    pub phase: Phase,
    /// The channel has signalled that it is open.
    pub open_seen: bool,
    /// The upstream-to-channel pump has been started.
    pub pump_started: bool,
}

/// The bridge of a channel that nothing has happened to yet.
pub open spec fn initial_bridge() -> ChannelBridge {
    ChannelBridge { phase: Phase::Idle, open_seen: false, pump_started: false }
}

/// One transition: the next state and the action for event `e` in state `s`.
pub open spec fn step(s: ChannelBridge, e: ChannelEvent) -> (ChannelBridge, ChannelAction) {
    match e {
        ChannelEvent::Announced => if s.phase == Phase::Idle {
            (ChannelBridge { phase: Phase::Connecting, ..s }, ChannelAction::Connect)
        } else {
            (s, ChannelAction::Nothing)
        },
        ChannelEvent::Connected => if s.phase == Phase::Connecting {
            if s.open_seen && !s.pump_started {
                (
                    ChannelBridge { phase: Phase::Bridged, pump_started: true, ..s },
                    ChannelAction::StartPump,
                )
            } else {
                (ChannelBridge { phase: Phase::Bridged, ..s }, ChannelAction::Nothing)
            }
        } else if s.phase == Phase::Closed {
            (s, ChannelAction::CloseUpstream)
        } else {
            (s, ChannelAction::Nothing)
        },
        ChannelEvent::ConnectFailed => if s.phase == Phase::Connecting {
            (ChannelBridge { phase: Phase::Unbridged, ..s }, ChannelAction::ReportConnectFailed)
        } else {
            (s, ChannelAction::Nothing)
        },
        ChannelEvent::Opened => if s.phase == Phase::Bridged && !s.pump_started {
            (ChannelBridge { open_seen: true, pump_started: true, ..s }, ChannelAction::StartPump)
        } else if s.phase == Phase::Closed {
            (s, ChannelAction::Nothing)
        } else {
            (ChannelBridge { open_seen: true, ..s }, ChannelAction::Nothing)
        },
        ChannelEvent::Message => if s.phase == Phase::Bridged {
            (s, ChannelAction::Forward)
        } else {
            (s, ChannelAction::Drop)
        },
        ChannelEvent::Closed => if s.phase == Phase::Bridged {
            (ChannelBridge { phase: Phase::Closed, ..s }, ChannelAction::CloseUpstream)
        } else {
            (ChannelBridge { phase: Phase::Closed, ..s }, ChannelAction::Nothing)
        },
    }
}

/// The actions taken, in order, when `events` arrive one after another in state `s`.
pub open spec fn actions(s: ChannelBridge, events: Seq<ChannelEvent>) -> Seq<ChannelAction>
    decreases events.len(),
{
    if events.len() == 0 {
        Seq::empty()
    } else {
        let (t, a) = step(s, events[0]);
        seq![a] + actions(t, events.drop_first())
    }
}

/// The state reached when `events` arrive one after another in state `s`.
pub open spec fn state_after(s: ChannelBridge, events: Seq<ChannelEvent>) -> ChannelBridge
    decreases events.len(),
{
    if events.len() == 0 {
        s
    } else {
        state_after(step(s, events[0]).0, events.drop_first())
    }
}

/// How many times `a` occurs in `acts`.
pub open spec fn occurrences(acts: Seq<ChannelAction>, a: ChannelAction) -> nat
    decreases acts.len(),
{
    if acts.len() == 0 {
        0
    } else {
        (if acts[0] == a { 1nat } else { 0nat }) + occurrences(acts.drop_first(), a)
    }
}

impl ChannelBridge {
    /// A bridge that nothing has happened to yet.
    pub fn new() -> (r: ChannelBridge)
        ensures
            r == initial_bridge(),
    {
        ChannelBridge { phase: Phase::Idle, open_seen: false, pump_started: false }
    }

    /// Takes one event and returns what the caller must do.
    pub fn on_event(&mut self, e: ChannelEvent) -> (a: ChannelAction)
        ensures
            (*final(self), a) == step(*old(self), e),
    {
        match e {
            ChannelEvent::Announced => {
                if self.phase == Phase::Idle {
                    self.phase = Phase::Connecting;
                    ChannelAction::Connect
                } else {
                    ChannelAction::Nothing
                }
            },
            ChannelEvent::Connected => {
                if self.phase == Phase::Connecting {
                    self.phase = Phase::Bridged;
                    if self.open_seen && !self.pump_started {
                        self.pump_started = true;
                        ChannelAction::StartPump
                    } else {
                        ChannelAction::Nothing
                    }
                } else if self.phase == Phase::Closed {
                    ChannelAction::CloseUpstream
                } else {
                    ChannelAction::Nothing
                }
            },
            ChannelEvent::ConnectFailed => {
                if self.phase == Phase::Connecting {
                    self.phase = Phase::Unbridged;
                    ChannelAction::ReportConnectFailed
                } else {
                    ChannelAction::Nothing
                }
            },
            ChannelEvent::Opened => {
                if self.phase == Phase::Closed {
                    ChannelAction::Nothing
                } else if self.phase == Phase::Bridged && !self.pump_started {
                    self.open_seen = true;
                    self.pump_started = true;
                    ChannelAction::StartPump
                } else {
                    self.open_seen = true;
                    ChannelAction::Nothing
                }
            },
            ChannelEvent::Message => {
                if self.phase == Phase::Bridged {
                    ChannelAction::Forward
                } else {
                    ChannelAction::Drop
                }
            },
            ChannelEvent::Closed => {
                let was_bridged = self.phase == Phase::Bridged;
                self.phase = Phase::Closed;
                if was_bridged {
                    ChannelAction::CloseUpstream
                } else {
                    ChannelAction::Nothing
                }
            },
        }
    }
}

proof fn lemma_connect_and_pump_bounds(s: ChannelBridge, events: Seq<ChannelEvent>)
    ensures
        occurrences(actions(s, events), ChannelAction::Connect) <= (if s.phase == Phase::Idle {
            1nat
        } else {
            0nat
        }),
        occurrences(actions(s, events), ChannelAction::StartPump) <= (if s.pump_started {
            0nat
        } else {
            1nat
        }),
    decreases events.len(),
{
    if events.len() > 0 {
        let (t, a) = step(s, events[0]);
        lemma_connect_and_pump_bounds(t, events.drop_first());
        let acts = actions(s, events);
        assert(acts[0] == a);
        assert(acts.drop_first() =~= actions(t, events.drop_first()));
    }
}

/// However often the remote peer announces a channel or signals that it
/// is open, the bridge opens at most one upstream connection and starts
/// at most one upstream-to-channel pump.
pub proof fn lemma_single_upstream_connection(events: Seq<ChannelEvent>)
    ensures
        occurrences(actions(initial_bridge(), events), ChannelAction::Connect) <= 1,
        occurrences(actions(initial_bridge(), events), ChannelAction::StartPump) <= 1,
{
    lemma_connect_and_pump_bounds(initial_bridge(), events);
}

proof fn lemma_dead_bridge_stays_dead(s: ChannelBridge, events: Seq<ChannelEvent>)
    requires
        s.phase == Phase::Unbridged || s.phase == Phase::Closed,
    ensures
        !actions(s, events).contains(ChannelAction::Forward),
        !actions(s, events).contains(ChannelAction::StartPump),
    decreases events.len(),
{
    if events.len() > 0 {
        let (t, a) = step(s, events[0]);
        lemma_dead_bridge_stays_dead(t, events.drop_first());
        let acts = actions(s, events);
        assert(acts =~= seq![a] + actions(t, events.drop_first()));
        assert(acts[0] == a);
        assert forall|i: int| 0 < i < acts.len() implies acts[i] == actions(
            t,
            events.drop_first(),
        )[i - 1] by {}
    }
}

/// Once the upstream connection of a channel has failed to open, whatever
/// happens afterwards, no message on that channel is forwarded upstream
/// and no pump starts: the channel stays open and carries no bytes.
pub proof fn lemma_unreachable_upstream_carries_nothing(
    before: Seq<ChannelEvent>,
    after: Seq<ChannelEvent>,
)
    requires
        step(state_after(initial_bridge(), before), ChannelEvent::ConnectFailed).1
            == ChannelAction::ReportConnectFailed,
    ensures
        !actions(
            step(state_after(initial_bridge(), before), ChannelEvent::ConnectFailed).0,
            after,
        ).contains(ChannelAction::Forward),
        !actions(
            step(state_after(initial_bridge(), before), ChannelEvent::ConnectFailed).0,
            after,
        ).contains(ChannelAction::StartPump),
{
    let s = step(state_after(initial_bridge(), before), ChannelEvent::ConnectFailed).0;
    lemma_dead_bridge_stays_dead(s, after);
}

} // verus!
