use lineproto::{ConnectAction, ConnectEvent, ConnectPhase, SecureConnect};

#[test]
fn setup_failure_resolves_without_opening_a_socket() {
    // A setup capability that always fails with "bad cipher config": the
    // attempt resolves with that cause and never asks for a connection.
    let mut m = SecureConnect::new();
    assert_eq!(m.current_phase(), ConnectPhase::TlsSetup);
    let action = m.step(ConnectEvent::SetupFailed(String::from("bad cipher config")));
    assert_eq!(
        action,
        ConnectAction::YieldFailure(String::from("bad cipher config"))
    );
    assert_eq!(m.current_phase(), ConnectPhase::Failed);
    assert_eq!(m.connections_attempted(), 0);
}

#[test]
fn successful_attempt_runs_the_three_steps_in_order() {
    let mut m = SecureConnect::new();
    assert_eq!(m.connections_attempted(), 0);

    let a = m.step::<String>(ConnectEvent::SetupSucceeded);
    assert_eq!(a, ConnectAction::OpenConnection);
    assert_eq!(m.current_phase(), ConnectPhase::Connecting);
    assert_eq!(m.connections_attempted(), 1);

    let b = m.step::<String>(ConnectEvent::ConnectionOpened);
    assert_eq!(b, ConnectAction::StartHandshake);
    assert_eq!(m.current_phase(), ConnectPhase::Handshaking);

    let c = m.step::<String>(ConnectEvent::HandshakeSucceeded);
    assert_eq!(c, ConnectAction::YieldHandle);
    assert_eq!(m.current_phase(), ConnectPhase::Established);
    assert_eq!(m.connections_attempted(), 1);
}

#[test]
fn connect_failure_resolves_with_the_transport_error() {
    let mut m = SecureConnect::new();
    let a = m.step::<String>(ConnectEvent::SetupSucceeded);
    assert_eq!(a, ConnectAction::OpenConnection);
    let b = m.step(ConnectEvent::ConnectionFailed(String::from(
        "connection refused",
    )));
    assert_eq!(
        b,
        ConnectAction::YieldFailure(String::from("connection refused"))
    );
    assert_eq!(m.current_phase(), ConnectPhase::Failed);
}

#[test]
fn handshake_failure_resolves_with_the_tls_error() {
    let mut m = SecureConnect::new();
    m.step::<String>(ConnectEvent::SetupSucceeded);
    m.step::<String>(ConnectEvent::ConnectionOpened);
    let a = m.step(ConnectEvent::HandshakeFailed(String::from(
        "certificate name mismatch",
    )));
    assert_eq!(
        a,
        ConnectAction::YieldFailure(String::from("certificate name mismatch"))
    );
    assert_eq!(m.current_phase(), ConnectPhase::Failed);
    assert_eq!(m.connections_attempted(), 1);
}
