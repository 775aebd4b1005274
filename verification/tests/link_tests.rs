use log_relay::link::acquire_step;
use log_relay::link::AcquireAction;
use log_relay::link::AcquirePhase;
use log_relay::link::LinkAction;
use log_relay::link::LinkEvent;
use log_relay::link::LinkState;
use log_relay::link::NetworkConfig;
use log_relay::link::NetworkHandle;
use log_relay::link::WifiLinkManager;
use log_relay::link::ADDRESS_POLL_INTERVAL_MS;
use log_relay::link::RETRY_DELAY_MS;

#[test]
fn link_scenario_start_associate_disconnect() {
    // Events [start, associate-success, disconnect-event] must visit
    // Disconnected -> Connecting -> Connected -> Connecting.
    let mut m = WifiLinkManager::new();
    assert_eq!(m.state(), LinkState::Disconnected);

    let a = m.handle_event(LinkEvent::StartRequest);
    assert_eq!(m.state(), LinkState::Connecting);
    assert_eq!(a, LinkAction::Associate);

    let a = m.handle_event(LinkEvent::AssociateSuccess);
    assert_eq!(m.state(), LinkState::Connected);
    assert_eq!(a, LinkAction::Idle);

    let a = m.handle_event(LinkEvent::DisconnectEvent);
    assert_eq!(m.state(), LinkState::Connecting);
    assert_eq!(a, LinkAction::RestartAfterDelay);
}

#[test]
fn association_failure_retries_in_place() {
    let mut m = WifiLinkManager::new();
    m.handle_event(LinkEvent::StartRequest);
    let a = m.handle_event(LinkEvent::AssociateFailure);
    assert_eq!(m.state(), LinkState::Connecting);
    assert_eq!(a, LinkAction::RetryAfterDelay);
    // A later success still connects.
    let a = m.handle_event(LinkEvent::AssociateSuccess);
    assert_eq!(m.state(), LinkState::Connected);
    assert_eq!(a, LinkAction::Idle);
}

#[test]
fn unexpected_events_change_nothing() {
    let mut m = WifiLinkManager::new();
    let a = m.handle_event(LinkEvent::DisconnectEvent);
    assert_eq!(m.state(), LinkState::Disconnected);
    assert_eq!(a, LinkAction::Idle);
    let a = m.handle_event(LinkEvent::AssociateSuccess);
    assert_eq!(m.state(), LinkState::Disconnected);
    assert_eq!(a, LinkAction::Idle);
}

#[test]
fn retry_and_poll_delays_are_fixed() {
    assert_eq!(RETRY_DELAY_MS, 5000);
    assert_eq!(ADDRESS_POLL_INTERVAL_MS, 500);
}

#[test]
fn acquisition_polls_until_link_and_address() {
    let cfg = NetworkConfig { addr: 0xC0A80105, prefix_len: 24, gateway: Some(0xC0A80101) };

    let (p, a) = acquire_step(AcquirePhase::WaitingForLink, false, None);
    assert_eq!((p, a), (AcquirePhase::WaitingForLink, AcquireAction::Wait));

    let (p, a) = acquire_step(p, true, None);
    assert_eq!((p, a), (AcquirePhase::WaitingForAddress, AcquireAction::Proceed));

    let (p, a) = acquire_step(p, true, None);
    assert_eq!((p, a), (AcquirePhase::WaitingForAddress, AcquireAction::Wait));

    let (p, a) = acquire_step(p, true, Some(cfg));
    assert_eq!((p, a), (AcquirePhase::Ready, AcquireAction::Done));
}

#[test]
fn handle_reports_unavailable_before_acquisition_and_stale_after_reconnect() {
    let cfg = NetworkConfig { addr: 0x0A000002, prefix_len: 16, gateway: None };
    let mut h = NetworkHandle::new();
    assert_eq!(h.current(), None);
    h.acquired(cfg);
    assert_eq!(h.current(), Some(cfg));
    h.invalidate();
    assert_eq!(h.current(), None);
}
