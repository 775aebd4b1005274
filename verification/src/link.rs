//! Supervision of the wireless link: association lifecycle and address
//! acquisition.
//!
//! [`WifiLinkManager`] is the state machine that keeps the link alive. It
//! never touches the radio itself: the surrounding task feeds it one
//! [`LinkEvent`] at a time (a start request, the outcome of an association
//! attempt, a disconnect notification) and performs the [`LinkAction`] it
//! answers with. Association failure and post-disconnect restart share one
//! fixed retry delay; there is no backoff and no retry limit, because the
//! device has no operator to report permanent failure to.
//!
//! Independently of association, [`acquire_step`] drives the polling loop
//! that waits for the link to come up and for an address to be assigned,
//! and [`NetworkHandle`] exposes the acquired configuration to downstream
//! actors, signalling "not yet available" rather than handing out stale or
//! default data.

use vstd::prelude::*;

verus! {

/// Fixed delay, in milliseconds, between an association failure or a
/// disconnect and the next attempt to bring the link back.
pub const RETRY_DELAY_MS: u64 = 5000;

/// Fixed interval, in milliseconds, at which link-up and address
/// acquisition are polled.
pub const ADDRESS_POLL_INTERVAL_MS: u64 = 500;

/// The association state of the wireless link.
#[derive(Clone, Copy, Debug, PartialEq, Eq, Structural)]
pub enum LinkState {
    /// No association exists or has been requested; the state at boot.
    Disconnected,
    /// Credentials are applied and association is being requested, or a
    /// retry is pending after a failure or a disconnect.
    Connecting,
    /// The link-layer association is established.
    Connected,
    /// Reserved intermediate state between a disconnect notification and
    /// the restart decision; the manager passes through it without
    /// dwelling, so no transition targets it.
    AwaitingDisconnectEvent,
}

/// One notification from the radio or from the boot sequence.
#[derive(Clone, Copy, Debug, PartialEq, Eq, Structural)]
pub enum LinkEvent {
    /// The device asks for the link to be brought up; sent once at boot.
    StartRequest,
    /// An association attempt succeeded.
    AssociateSuccess,
    /// An association attempt failed.
    AssociateFailure,
    /// The radio reports that an established association was lost.
    DisconnectEvent,
}

/// What the surrounding task must do after a transition.
#[derive(Clone, Copy, Debug, PartialEq, Eq, Structural)]
pub enum LinkAction {
    /// Apply the stored credentials and request association now.
    Associate,
    /// Wait [`RETRY_DELAY_MS`], then request association again.
    RetryAfterDelay,
    /// Wait [`RETRY_DELAY_MS`], re-apply the configuration and start the
    /// radio if it is no longer started, then request association.
    RestartAfterDelay,
    /// Nothing to do.
    Idle,
}

/// The transition relation of the link manager. Any event that the current
/// state has no transition for leaves the state unchanged and asks for
/// nothing.
pub open spec fn spec_link_step(s: LinkState, e: LinkEvent) -> (LinkState, LinkAction) {
    match (s, e) {
        (LinkState::Disconnected, LinkEvent::StartRequest) => (
            LinkState::Connecting,
            LinkAction::Associate,
        ),
        (LinkState::Connecting, LinkEvent::AssociateSuccess) => (
            LinkState::Connected,
            LinkAction::Idle,
        ),
        (LinkState::Connecting, LinkEvent::AssociateFailure) => (
            LinkState::Connecting,
            LinkAction::RetryAfterDelay,
        ),
        (LinkState::Connected, LinkEvent::DisconnectEvent) => (
            LinkState::Connecting,
            LinkAction::RestartAfterDelay,
        ),
        _ => (s, LinkAction::Idle),
    }
}

/// The supervisory state machine that establishes, monitors and
/// re-establishes the wireless association.
pub struct WifiLinkManager {
    state: LinkState,
}

impl View for WifiLinkManager {
    type V = LinkState;

    closed spec fn view(&self) -> LinkState {
        self.state
    }
}

impl WifiLinkManager {
    /// A fresh manager starts disconnected.
    pub fn new() -> (m: WifiLinkManager)
        ensures
            m@ == LinkState::Disconnected,
    {
        WifiLinkManager { state: LinkState::Disconnected }
    }

    /// The current association state.
    pub fn state(&self) -> (s: LinkState)
        ensures
            s == self@,
    {
        self.state
    }

    /// Reacts to one event: moves to the next state of
    /// [`spec_link_step`] and answers with the action the surrounding
    /// task must perform.
    pub fn handle_event(&mut self, e: LinkEvent) -> (a: LinkAction)
        ensures
            (final(self)@, a) == spec_link_step(old(self)@, e),
    {
        let (next, action) = match (self.state, e) {
            (LinkState::Disconnected, LinkEvent::StartRequest) => (
                LinkState::Connecting,
                LinkAction::Associate,
            ),
            (LinkState::Connecting, LinkEvent::AssociateSuccess) => (
                LinkState::Connected,
                LinkAction::Idle,
            ),
            (LinkState::Connecting, LinkEvent::AssociateFailure) => (
                LinkState::Connecting,
                LinkAction::RetryAfterDelay,
            ),
            (LinkState::Connected, LinkEvent::DisconnectEvent) => (
                LinkState::Connecting,
                LinkAction::RestartAfterDelay,
            ),
            (s, _) => (s, LinkAction::Idle),
        };
        self.state = next;
        action
    }
}

/// The states visited, in order, when the events of `es` are handled one
/// by one starting from `s`; entry `i` is the state after event `es[i]`.
pub open spec fn link_trace(s: LinkState, es: Seq<LinkEvent>) -> Seq<LinkState>
    decreases es.len(),
{
    if es.len() == 0 {
        Seq::<LinkState>::empty()
    } else {
        let next = spec_link_step(s, es.first()).0;
        seq![next] + link_trace(next, es.drop_first())
    }
}

/// The state in which event `es[i]` is handled: the start state for the
/// first event, otherwise the state its predecessor left behind.
pub open spec fn link_state_before(s: LinkState, es: Seq<LinkEvent>, i: int) -> LinkState {
    if i == 0 {
        s
    } else {
        link_trace(s, es)[i - 1]
    }
}

/// A trace has one state per event, and each of its states is the step
/// taken from its predecessor.
pub proof fn lemma_link_trace_index(s: LinkState, es: Seq<LinkEvent>, i: int)
    requires
        0 <= i < es.len(),
    ensures
        link_trace(s, es).len() == es.len(),
        link_trace(s, es)[i] == spec_link_step(link_state_before(s, es, i), es[i]).0,
    decreases es.len(),
{
    lemma_link_trace_len(s, es);
    if i > 0 {
        let next = spec_link_step(s, es.first()).0;
        lemma_link_trace_index(next, es.drop_first(), i - 1);
        if i > 1 {
            assert(link_state_before(next, es.drop_first(), i - 1) == link_state_before(
                s,
                es,
                i,
            ));
        }
    }
}

/// A trace is as long as its event sequence.
pub proof fn lemma_link_trace_len(s: LinkState, es: Seq<LinkEvent>)
    ensures
        link_trace(s, es).len() == es.len(),
    decreases es.len(),
{
    if es.len() > 0 {
        lemma_link_trace_len(spec_link_step(s, es.first()).0, es.drop_first());
    }
}

/// The link is never connected without a prior successful association:
/// whenever a trace enters `Connected` from elsewhere, the manager was
/// `Connecting` and the event was `AssociateSuccess`.
pub proof fn lemma_no_connected_without_association(s: LinkState, es: Seq<LinkEvent>)
    ensures
        forall|i: int|
            0 <= i < es.len() && link_trace(s, es)[i] == LinkState::Connected
                && link_state_before(s, es, i) != LinkState::Connected ==> link_state_before(
                s,
                es,
                i,
            ) == LinkState::Connecting && es[i] == LinkEvent::AssociateSuccess,
{
    assert forall|i: int|
        0 <= i < es.len() && link_trace(s, es)[i] == LinkState::Connected && link_state_before(
            s,
            es,
            i,
        ) != LinkState::Connected implies link_state_before(s, es, i) == LinkState::Connecting
        && es[i] == LinkEvent::AssociateSuccess by {
        lemma_link_trace_index(s, es, i);
    }
}

/// The acquired network configuration: the DHCP-assigned IPv4 address,
/// its prefix length, and the gateway if one was announced. Each address
/// is carried as its four octets packed big-endian into a `u32`.
#[derive(Clone, Copy, Debug, PartialEq, Eq, Structural)]
pub struct NetworkConfig {
    /// The assigned IPv4 address.
    pub addr: u32,
    /// The prefix length of the assigned subnet.
    pub prefix_len: u8,
    /// The gateway address, when the lease announced one.
    pub gateway: Option<u32>,
}

/// The progress of bringing the network up after boot or after a
/// reconnect.
#[derive(Clone, Copy, Debug, PartialEq, Eq, Structural)]
pub enum AcquirePhase {
    /// The link layer is not up yet.
    WaitingForLink,
    /// The link is up; no address has been assigned yet.
    WaitingForAddress,
    /// An address is assigned; the dependent pipeline may proceed.
    Ready,
}

/// What the polling task must do after one acquisition step.
#[derive(Clone, Copy, Debug, PartialEq, Eq, Structural)]
pub enum AcquireAction {
    /// Wait [`ADDRESS_POLL_INTERVAL_MS`], then poll again.
    Wait,
    /// Re-check the next condition immediately.
    Proceed,
    /// Acquisition is complete.
    Done,
}

/// One step of the acquisition poll, given whether the link is up and the
/// currently assigned configuration, if any.
pub open spec fn spec_acquire_step(
    p: AcquirePhase,
    link_up: bool,
    config: Option<NetworkConfig>,
) -> (AcquirePhase, AcquireAction) {
    match p {
        AcquirePhase::WaitingForLink => if link_up {
            (AcquirePhase::WaitingForAddress, AcquireAction::Proceed)
        } else {
            (AcquirePhase::WaitingForLink, AcquireAction::Wait)
        },
        AcquirePhase::WaitingForAddress => if config is Some {
            (AcquirePhase::Ready, AcquireAction::Done)
        } else {
            (AcquirePhase::WaitingForAddress, AcquireAction::Wait)
        },
        AcquirePhase::Ready => (AcquirePhase::Ready, AcquireAction::Done),
    }
}

/// Advances the acquisition poll by one observation of the stack: whether
/// the link is up, and the configuration it currently reports.
pub fn acquire_step(p: AcquirePhase, link_up: bool, config: Option<NetworkConfig>) -> (r: (
    AcquirePhase,
    AcquireAction,
))
    ensures
        r == spec_acquire_step(p, link_up, config),
{
    match p {
        AcquirePhase::WaitingForLink => if link_up {
            (AcquirePhase::WaitingForAddress, AcquireAction::Proceed)
        } else {
            (AcquirePhase::WaitingForLink, AcquireAction::Wait)
        },
        AcquirePhase::WaitingForAddress => if config.is_some() {
            (AcquirePhase::Ready, AcquireAction::Done)
        } else {
            (AcquirePhase::WaitingForAddress, AcquireAction::Wait)
        },
        AcquirePhase::Ready => (AcquirePhase::Ready, AcquireAction::Done),
    }
}

/// The stable handle through which downstream actors query the current
/// network configuration. Before an address is acquired, and again after
/// a reconnect invalidates the lease, it reports "not yet available"
/// rather than stale or default data.
pub struct NetworkHandle {
    config: Option<NetworkConfig>,
}

impl View for NetworkHandle {
    type V = Option<NetworkConfig>;

    closed spec fn view(&self) -> Option<NetworkConfig> {
        self.config
    }
}

impl NetworkHandle {
    /// A fresh handle has no configuration yet.
    pub fn new() -> (h: NetworkHandle)
        ensures
            h@ is None,
    {
        NetworkHandle { config: None }
    }

    /// Records a freshly acquired configuration.
    pub fn acquired(&mut self, cfg: NetworkConfig)
        ensures
            final(self)@ == Some(cfg),
    {
        self.config = Some(cfg);
    }

    /// Drops the configuration: after a reconnect the old lease is stale
    /// and must be re-queried.
    pub fn invalidate(&mut self)
        ensures
            final(self)@ is None,
    {
        self.config = None;
    }

    /// The current configuration, or `None` while none is acquired.
    pub fn current(&self) -> (c: Option<NetworkConfig>)
        ensures
            c == self@,
    {
        self.config
    }
}

} // verus!
