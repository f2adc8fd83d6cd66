//! The dual-listener bootstrap policy.
//!
//! Startup is a small state machine. After the certificate loader has
//! reported its outcome, a TLS listener is attempted only on success, and a
//! failure to bind it is fatal. A plaintext listener is attempted
//! unconditionally, and a failure to bind it is fatal as well. A missing or
//! unusable certificate, by contrast, only skips TLS: the service is allowed
//! to run plaintext-only. The driver that owns the real sockets performs
//! each `BootAction` and reports the outcome back as a `BootEvent`.

use vstd::prelude::*;

verus! {

/// The transport a listener speaks.
#[derive(Clone, Copy, PartialEq, Eq, Structural, Debug)]
pub enum Protocol {
    Plaintext,
    Tls,
}

/// The one fatal startup failure: a listener could not be bound.
#[derive(Clone, Copy, PartialEq, Eq, Structural, Debug)]
pub enum BootstrapError {
    BindFailed { protocol: Protocol, port: u16 },
}

/// The phases of startup, in the order they are normally reached.
#[derive(Clone, Copy, PartialEq, Eq, Structural, Debug)]
pub enum Phase {
    Init,
    CertEvaluated,
    TlsBound,
    TlsSkipped,
    PlainBound,
    Serving,
    Stopped,
}

/// What the outside driver reports to the machine.
#[derive(Clone, Copy, PartialEq, Eq, Structural, Debug)]
pub enum BootEvent {
    /// The certificate loader finished; `tls_available` says whether it
    /// produced a TLS configuration.
    CertOutcome { tls_available: bool },
    /// The TLS listener bind attempt finished.
    TlsBindOutcome { bound: bool },
    /// The driver acknowledged (typically: logged) that TLS is skipped.
    TlsSkipConfirmed,
    /// The plaintext listener bind attempt finished.
    PlainBindOutcome { bound: bool },
    /// The listeners started accepting connections.
    ServeStarted,
    /// An external shutdown signal arrived.
    ShutdownRequested,
}

/// What the machine asks the outside driver to do next.
#[derive(Clone, Copy, PartialEq, Eq, Structural, Debug)]
pub enum BootAction {
    /// Run the certificate loader and report its outcome.
    EvaluateCertificates,
    /// Try to bind the TLS listener on `port`.
    AttemptTlsBind { port: u16 },
    /// Warn that TLS is unavailable and confirm the skip.
    ConfirmTlsSkip,
    /// Try to bind the plaintext listener on `port`.
    AttemptPlainBind { port: u16 },
    /// Start accepting connections on every bound listener.
    StartServing,
    /// Keep serving until a shutdown signal arrives.
    AwaitShutdown,
    /// Startup aborted or service stopped; release everything.
    Halt,
}

/// The bootstrap state machine: the current phase, which listeners are
/// planned and bound, and the two ports.
#[derive(Clone, Copy, PartialEq, Eq, Structural, Debug)]
pub struct Bootstrapper {
    pub phase: Phase,
    pub tls_planned: bool,
    pub tls_bound: bool,
    pub plain_bound: bool,
    pub http_port: u16,
    pub https_port: u16,
}

/// Which events a state admits. Each phase waits for exactly the report
/// that its pending action produces.
pub open spec fn event_allowed(s: Bootstrapper, ev: BootEvent) -> bool {
    match ev {
        BootEvent::CertOutcome { .. } => s.phase is Init,
        BootEvent::TlsBindOutcome { .. } => s.phase is CertEvaluated && s.tls_planned,
        BootEvent::TlsSkipConfirmed => s.phase is CertEvaluated && !s.tls_planned,
        BootEvent::PlainBindOutcome { .. } => s.phase is TlsBound || s.phase is TlsSkipped,
        BootEvent::ServeStarted => s.phase is PlainBound,
        BootEvent::ShutdownRequested => s.phase is Serving,
    }
}

/// The transition function: the state after `ev`, and the fatal error the
/// step raises, if any. A certificate-load failure raises none — TLS is
/// skipped; a failed bind of either listener stops the machine and raises
/// `BindFailed` naming the protocol and port.
pub open spec fn boot_step(s: Bootstrapper, ev: BootEvent) -> (Bootstrapper, Option<
    BootstrapError,
>) {
    match ev {
        BootEvent::CertOutcome { tls_available } => (
            Bootstrapper { phase: Phase::CertEvaluated, tls_planned: tls_available, ..s },
            None,
        ),
        BootEvent::TlsBindOutcome { bound } => if bound {
            (Bootstrapper { phase: Phase::TlsBound, tls_bound: true, ..s }, None)
        } else {
            (
                Bootstrapper { phase: Phase::Stopped, tls_bound: false, plain_bound: false, ..s },
                Some(BootstrapError::BindFailed { protocol: Protocol::Tls, port: s.https_port }),
            )
        },
        BootEvent::TlsSkipConfirmed => (Bootstrapper { phase: Phase::TlsSkipped, ..s }, None),
        BootEvent::PlainBindOutcome { bound } => if bound {
            (Bootstrapper { phase: Phase::PlainBound, plain_bound: true, ..s }, None)
        } else {
            (
                Bootstrapper { phase: Phase::Stopped, tls_bound: false, plain_bound: false, ..s },
                Some(
                    BootstrapError::BindFailed {
                        protocol: Protocol::Plaintext,
                        port: s.http_port,
                    },
                ),
            )
        },
        BootEvent::ServeStarted => (Bootstrapper { phase: Phase::Serving, ..s }, None),
        BootEvent::ShutdownRequested => (
            Bootstrapper { phase: Phase::Stopped, tls_bound: false, plain_bound: false, ..s },
            None,
        ),
    }
}

/// The action a state asks of the driver.
pub open spec fn planned_action(s: Bootstrapper) -> BootAction {
    match s.phase {
        Phase::Init => BootAction::EvaluateCertificates,
        Phase::CertEvaluated => if s.tls_planned {
            BootAction::AttemptTlsBind { port: s.https_port }
        } else {
            BootAction::ConfirmTlsSkip
        },
        Phase::TlsBound => BootAction::AttemptPlainBind { port: s.http_port },
        Phase::TlsSkipped => BootAction::AttemptPlainBind { port: s.http_port },
        Phase::PlainBound => BootAction::StartServing,
        Phase::Serving => BootAction::AwaitShutdown,
        Phase::Stopped => BootAction::Halt,
    }
}

impl Bootstrapper {
    /// A fresh machine in `Init`, with nothing planned and nothing bound.
    pub fn new(http_port: u16, https_port: u16) -> (b: Bootstrapper)
        ensures
            b == (Bootstrapper {
                phase: Phase::Init,
                tls_planned: false,
                tls_bound: false,
                plain_bound: false,
                http_port,
                https_port,
            }),
    {
        Bootstrapper {
            phase: Phase::Init,
            tls_planned: false,
            tls_bound: false,
            plain_bound: false,
            http_port,
            https_port,
        }
    }

    /// Apply one event. The new state and the returned fault are exactly
    /// what `boot_step` prescribes.
    pub fn advance(&mut self, ev: BootEvent) -> (fault: Option<BootstrapError>)
        requires
            event_allowed(*old(self), ev),
        ensures
            *final(self) == boot_step(*old(self), ev).0,
            fault == boot_step(*old(self), ev).1,
    {
        match ev {
            BootEvent::CertOutcome { tls_available } => {
                self.phase = Phase::CertEvaluated;
                self.tls_planned = tls_available;
                None
            },
            BootEvent::TlsBindOutcome { bound } => {
                if bound {
                    self.phase = Phase::TlsBound;
                    self.tls_bound = true;
                    None
                } else {
                    self.phase = Phase::Stopped;
                    self.tls_bound = false;
                    self.plain_bound = false;
                    Some(
                        BootstrapError::BindFailed {
                            protocol: Protocol::Tls,
                            port: self.https_port,
                        },
                    )
                }
            },
            BootEvent::TlsSkipConfirmed => {
                self.phase = Phase::TlsSkipped;
                None
            },
            BootEvent::PlainBindOutcome { bound } => {
                if bound {
                    self.phase = Phase::PlainBound;
                    self.plain_bound = true;
                    None
                } else {
                    self.phase = Phase::Stopped;
                    self.tls_bound = false;
                    self.plain_bound = false;
                    Some(
                        BootstrapError::BindFailed {
                            protocol: Protocol::Plaintext,
                            port: self.http_port,
                        },
                    )
                }
            },
            BootEvent::ServeStarted => {
                self.phase = Phase::Serving;
                None
            },
            BootEvent::ShutdownRequested => {
                self.phase = Phase::Stopped;
                self.tls_bound = false;
                self.plain_bound = false;
                None
            },
        }
    }

    /// Whether the machine is serving.
    pub fn is_serving(&self) -> (r: bool)
        ensures
            r == (self.phase is Serving),
    {
        matches!(self.phase, Phase::Serving)
    }

    /// The action the driver should perform next.
    pub fn next_action(&self) -> (a: BootAction)
        ensures
            a == planned_action(*self),
    {
        match self.phase {
            Phase::Init => BootAction::EvaluateCertificates,
            Phase::CertEvaluated => {
                if self.tls_planned {
                    BootAction::AttemptTlsBind { port: self.https_port }
                } else {
                    BootAction::ConfirmTlsSkip
                }
            },
            Phase::TlsBound => BootAction::AttemptPlainBind { port: self.http_port },
            Phase::TlsSkipped => BootAction::AttemptPlainBind { port: self.http_port },
            Phase::PlainBound => BootAction::StartServing,
            Phase::Serving => BootAction::AwaitShutdown,
            Phase::Stopped => BootAction::Halt,
        }
    }
}

/// A usable TLS configuration and two successful binds bring the machine
/// from `Init` to `Serving` with both listeners bound, and no step raises
/// a fault.
pub proof fn lemma_full_bootstrap_serves_both(s0: Bootstrapper)
    requires
        s0.phase is Init,
    ensures
        ({
            let (s1, e1) = boot_step(s0, BootEvent::CertOutcome { tls_available: true });
            let (s2, e2) = boot_step(s1, BootEvent::TlsBindOutcome { bound: true });
            let (s3, e3) = boot_step(s2, BootEvent::PlainBindOutcome { bound: true });
            let (s4, e4) = boot_step(s3, BootEvent::ServeStarted);
            &&& event_allowed(s0, BootEvent::CertOutcome { tls_available: true })
            &&& event_allowed(s1, BootEvent::TlsBindOutcome { bound: true })
            &&& event_allowed(s2, BootEvent::PlainBindOutcome { bound: true })
            &&& event_allowed(s3, BootEvent::ServeStarted)
            &&& e1 is None
            &&& e2 is None
            &&& e3 is None
            &&& e4 is None
            &&& s4.phase is Serving
            &&& s4.tls_bound
            &&& s4.plain_bound
        }),
{
}

/// A failed certificate load is not fatal: skipping TLS and binding the
/// plaintext listener still reaches `Serving`, with only that listener
/// bound and no fault raised.
pub proof fn lemma_cert_failure_still_serves_plaintext(s0: Bootstrapper)
    requires
        s0.phase is Init,
        !s0.tls_bound,
    ensures
        ({
            let (s1, e1) = boot_step(s0, BootEvent::CertOutcome { tls_available: false });
            let (s2, e2) = boot_step(s1, BootEvent::TlsSkipConfirmed);
            let (s3, e3) = boot_step(s2, BootEvent::PlainBindOutcome { bound: true });
            let (s4, e4) = boot_step(s3, BootEvent::ServeStarted);
            &&& event_allowed(s0, BootEvent::CertOutcome { tls_available: false })
            &&& event_allowed(s1, BootEvent::TlsSkipConfirmed)
            &&& event_allowed(s2, BootEvent::PlainBindOutcome { bound: true })
            &&& event_allowed(s3, BootEvent::ServeStarted)
            &&& e1 is None
            &&& e2 is None
            &&& e3 is None
            &&& e4 is None
            &&& s4.phase is Serving
            &&& !s4.tls_bound
            &&& s4.plain_bound
        }),
{
}

/// A failed TLS bind aborts startup: the machine stops, nothing stays
/// bound, and the fault names the TLS protocol and its port.
pub proof fn lemma_tls_bind_failure_is_fatal(s: Bootstrapper)
    requires
        s.phase is CertEvaluated,
        s.tls_planned,
    ensures
        ({
            let (s2, fault) = boot_step(s, BootEvent::TlsBindOutcome { bound: false });
            &&& fault == Some(
                BootstrapError::BindFailed { protocol: Protocol::Tls, port: s.https_port },
            )
            &&& s2.phase is Stopped
            &&& !s2.tls_bound
            &&& !s2.plain_bound
        }),
{
}

/// A failed plaintext bind aborts startup whether or not TLS was bound:
/// the machine stops, no listener stays bound, and the fault names the
/// plaintext protocol and its port.
pub proof fn lemma_plain_bind_failure_is_fatal(s: Bootstrapper)
    requires
        s.phase is TlsBound || s.phase is TlsSkipped,
    ensures
        ({
            let (s2, fault) = boot_step(s, BootEvent::PlainBindOutcome { bound: false });
            &&& fault == Some(
                BootstrapError::BindFailed { protocol: Protocol::Plaintext, port: s.http_port },
            )
            &&& s2.phase is Stopped
            &&& !s2.tls_bound
            &&& !s2.plain_bound
        }),
{
}

} // verus!
