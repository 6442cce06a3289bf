//! The connection establisher's decision logic.
//!
//! A secure-connect attempt runs three strictly ordered steps: configure the
//! TLS connector, open the transport-level connection, run the TLS handshake.
//! The steps themselves are outside work (the setup capability, the reactor,
//! the TLS library); what is decided here is which step runs next and what a
//! failed step resolves to. `SecureConnect` is that decision logic: a driver
//! reports each step's outcome as a [`ConnectEvent`] and performs the
//! [`ConnectAction`] it gets back. Every failure short-circuits the attempt
//! to one unified failure carrying the step's own cause, and a failed attempt
//! accepts no further event — in particular, a setup failure resolves the
//! attempt before any transport connection is opened.

use vstd::prelude::*;

verus! {

/// Phase of one secure-connect attempt.
#[derive(Clone, Copy, Debug, PartialEq, Eq, Structural)]
pub enum ConnectPhase {
    /// The TLS-setup capability has not reported its outcome yet; no network
    /// I/O has happened.
    TlsSetup,
    /// Setup succeeded; the transport-level connection is being opened.
    Connecting,
    /// The connection is open; the TLS handshake is running over it.
    Handshaking,
    /// The handshake completed; the attempt produced an encrypted stream.
    Established,
    /// Some step failed; the attempt is over.
    Failed,
}

/// The outcome of the step that is currently running, reported by the
/// driver. A failing outcome carries the step's own error `E`.
#[derive(Debug, PartialEq, Eq)]
pub enum ConnectEvent<E> {
    /// The TLS-setup capability returned a configured connector.
    SetupSucceeded,
    /// The TLS-setup capability rejected the configuration.
    SetupFailed(E),
    /// The transport-level connection to the target address is open.
    ConnectionOpened,
    /// The transport-level connection could not be opened.
    ConnectionFailed(E),
    /// The TLS handshake completed and produced an encrypted stream.
    HandshakeSucceeded,
    /// The TLS handshake was rejected or broke off.
    HandshakeFailed(E),
}

/// What the driver must do next, decided from the reported outcome.
#[derive(Debug, PartialEq, Eq)]
pub enum ConnectAction<E> {
    /// Open the transport-level connection to the target address.
    OpenConnection,
    /// Run the TLS handshake over the open connection.
    StartHandshake,
    /// Resolve the attempt with the established stream, wrapped as a
    /// transport handle.
    YieldHandle,
    /// Resolve the attempt with this failure; release whatever the earlier
    /// steps opened.
    YieldFailure(E),
}

/// Which events can arrive in which phase: the driver reports the outcome of
/// exactly the step that is running, and the two terminal phases accept no
/// event at all.
pub open spec fn event_fits<E>(phase: ConnectPhase, event: ConnectEvent<E>) -> bool {
    match event {
        ConnectEvent::SetupSucceeded | ConnectEvent::SetupFailed(_) => phase is TlsSetup,
        ConnectEvent::ConnectionOpened | ConnectEvent::ConnectionFailed(_) => phase is Connecting,
        ConnectEvent::HandshakeSucceeded | ConnectEvent::HandshakeFailed(_) => phase
            is Handshaking,
    }
}

/// The phase an event moves the attempt into: each success starts the next
/// step, and any failure ends the attempt.
pub open spec fn phase_after<E>(event: ConnectEvent<E>) -> ConnectPhase {
    match event {
        ConnectEvent::SetupSucceeded => ConnectPhase::Connecting,
        ConnectEvent::ConnectionOpened => ConnectPhase::Handshaking,
        ConnectEvent::HandshakeSucceeded => ConnectPhase::Established,
        ConnectEvent::SetupFailed(_) | ConnectEvent::ConnectionFailed(_)
            | ConnectEvent::HandshakeFailed(_) => ConnectPhase::Failed,
    }
}

/// The action an event decides: each success triggers the next step (for the
/// last one, yielding the handle), and any failure resolves the attempt with
/// that step's own cause, unchanged.
pub open spec fn action_for<E>(event: ConnectEvent<E>) -> ConnectAction<E> {
    match event {
        ConnectEvent::SetupSucceeded => ConnectAction::OpenConnection,
        ConnectEvent::ConnectionOpened => ConnectAction::StartHandshake,
        ConnectEvent::HandshakeSucceeded => ConnectAction::YieldHandle,
        ConnectEvent::SetupFailed(e) | ConnectEvent::ConnectionFailed(e)
            | ConnectEvent::HandshakeFailed(e) => ConnectAction::YieldFailure(e),
    }
}

/// How many transport connections an event opens: only a successful setup
/// leads to one.
pub open spec fn attempts_after<E>(attempts: u64, event: ConnectEvent<E>) -> u64 {
    if event is SetupSucceeded {
        (attempts + 1) as u64
    } else {
        attempts
    }
}

/// One secure-connect attempt: configure, connect, handshake, strictly in
/// that order, with any failure short-circuiting to a unified failure. The
/// machine also counts the transport connections it asked for, so that "a
/// rejected configuration opens no socket" is a stated fact and not a hope.
pub struct SecureConnect {
    phase: ConnectPhase,
    connect_attempts: u64,
}

impl SecureConnect {
    /// The phase the attempt is in.
    pub closed spec fn phase(&self) -> ConnectPhase {
        self.phase
    }

    /// How many transport connections the attempt has asked its driver to
    /// open so far.
    pub closed spec fn connect_attempts(&self) -> u64 {
        self.connect_attempts
    }

    /// Well-formedness: one attempt opens at most one transport connection,
    /// none before setup succeeds, and exactly one once it has.
    pub open spec fn wf(&self) -> bool {
        &&& self.connect_attempts() <= 1
        &&& (self.phase() is TlsSetup ==> self.connect_attempts() == 0)
        &&& ((self.phase() is Connecting || self.phase() is Handshaking || self.phase()
            is Established) ==> self.connect_attempts() == 1)
    }

    /// Starts a secure-connect attempt: the TLS-setup capability is invoked
    /// first, before any network I/O.
    pub fn new() -> (m: SecureConnect)
        ensures
            m.wf(),
            m.phase() is TlsSetup,
            m.connect_attempts() == 0,
    {
        SecureConnect { phase: ConnectPhase::TlsSetup, connect_attempts: 0 }
    }

    /// The phase the attempt is in.
    pub fn current_phase(&self) -> (p: ConnectPhase)
        ensures
            p == self.phase(),
    {
        self.phase
    }

    /// How many transport connections the attempt has asked its driver to
    /// open so far.
    pub fn connections_attempted(&self) -> (n: u64)
        ensures
            n == self.connect_attempts(),
    {
        self.connect_attempts
    }

    /// Feeds the running step's outcome in and decides what the driver does
    /// next: exactly the action, phase and connection count that
    /// [`action_for`], [`phase_after`] and [`attempts_after`] give for the
    /// event.
    pub fn step<E>(&mut self, event: ConnectEvent<E>) -> (a: ConnectAction<E>)
        requires
            old(self).wf(),
            event_fits(old(self).phase(), event),
        ensures
            final(self).wf(),
            final(self).phase() == phase_after(event),
            final(self).connect_attempts() == attempts_after(old(self).connect_attempts(), event),
            a == action_for(event),
    {
        match event {
            ConnectEvent::SetupSucceeded => {
                self.phase = ConnectPhase::Connecting;
                self.connect_attempts = self.connect_attempts + 1;
                ConnectAction::OpenConnection
            },
            ConnectEvent::SetupFailed(e) => {
                self.phase = ConnectPhase::Failed;
                ConnectAction::YieldFailure(e)
            },
            ConnectEvent::ConnectionOpened => {
                self.phase = ConnectPhase::Handshaking;
                ConnectAction::StartHandshake
            },
            ConnectEvent::ConnectionFailed(e) => {
                self.phase = ConnectPhase::Failed;
                ConnectAction::YieldFailure(e)
            },
            ConnectEvent::HandshakeSucceeded => {
                self.phase = ConnectPhase::Established;
                ConnectAction::YieldHandle
            },
            ConnectEvent::HandshakeFailed(e) => {
                self.phase = ConnectPhase::Failed;
                ConnectAction::YieldFailure(e)
            },
        }
    }
}

/// If the TLS-setup capability fails, the attempt resolves immediately with
/// exactly that cause: the step decides to yield the failure, the machine
/// reaches the failed phase with its connection count still at zero, and the
/// failed phase accepts no further event — so no transport connection is
/// ever attempted.
pub proof fn law_setup_failure_precludes_connect<E>(
    m: SecureConnect,
    cause: E,
    later: ConnectEvent<E>,
)
    requires
        m.wf(),
        m.phase() is TlsSetup,
    ensures
        action_for(ConnectEvent::SetupFailed(cause)) == ConnectAction::YieldFailure(cause),
        phase_after(ConnectEvent::SetupFailed(cause)) is Failed,
        attempts_after(m.connect_attempts(), ConnectEvent::SetupFailed(cause)) == 0,
        !event_fits(ConnectPhase::Failed, later),
{
}

/// A transport-connect failure resolves the attempt with exactly that cause
/// and never with a handle: the step decides to yield the failure, the
/// machine reaches the failed phase, and the failed phase accepts no further
/// event.
pub proof fn law_connect_failure_yields_no_handle<E>(cause: E, later: ConnectEvent<E>)
    ensures
        action_for(ConnectEvent::ConnectionFailed(cause)) == ConnectAction::YieldFailure(cause),
        action_for(ConnectEvent::ConnectionFailed(cause)) != ConnectAction::<E>::YieldHandle,
        phase_after(ConnectEvent::ConnectionFailed(cause)) is Failed,
        !event_fits(ConnectPhase::Failed, later),
{
}

/// A handle is yielded only for a completed handshake; the machine accepts a
/// handshake outcome only while handshaking, which is entered only by an
/// opened connection, which in turn is asked for only by a successful setup:
/// the three steps are strictly ordered.
pub proof fn law_steps_strictly_ordered<E>(phase: ConnectPhase, event: ConnectEvent<E>)
    ensures
        action_for(event) == ConnectAction::<E>::YieldHandle ==> event is HandshakeSucceeded,
        (event_fits(phase, event) && event is HandshakeSucceeded) ==> phase is Handshaking,
        phase_after::<E>(ConnectEvent::ConnectionOpened) is Handshaking,
        (event_fits(phase, event) && event is ConnectionOpened) ==> phase is Connecting,
        phase_after::<E>(ConnectEvent::SetupSucceeded) is Connecting,
        (event_fits(phase, event) && event is SetupSucceeded) ==> phase is TlsSetup,
{
}

} // verus!
