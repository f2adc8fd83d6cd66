use tls_bootstrap::bootstrap::BootAction;
use tls_bootstrap::bootstrap::BootEvent;
use tls_bootstrap::bootstrap::BootstrapError;
use tls_bootstrap::bootstrap::Bootstrapper;
use tls_bootstrap::bootstrap::Phase;
use tls_bootstrap::bootstrap::Protocol;

#[test]
fn full_bootstrap_serves_both_listeners() {
    let mut b = Bootstrapper::new(8080, 8443);
    assert_eq!(b.phase, Phase::Init);
    assert_eq!(b.next_action(), BootAction::EvaluateCertificates);

    assert_eq!(b.advance(BootEvent::CertOutcome { tls_available: true }), None);
    assert_eq!(b.phase, Phase::CertEvaluated);
    assert_eq!(b.next_action(), BootAction::AttemptTlsBind { port: 8443 });

    assert_eq!(b.advance(BootEvent::TlsBindOutcome { bound: true }), None);
    assert_eq!(b.phase, Phase::TlsBound);
    assert_eq!(b.next_action(), BootAction::AttemptPlainBind { port: 8080 });

    assert_eq!(b.advance(BootEvent::PlainBindOutcome { bound: true }), None);
    assert_eq!(b.phase, Phase::PlainBound);
    assert_eq!(b.next_action(), BootAction::StartServing);

    assert_eq!(b.advance(BootEvent::ServeStarted), None);
    assert!(b.is_serving());
    assert!(b.tls_bound);
    assert!(b.plain_bound);
    assert_eq!(b.next_action(), BootAction::AwaitShutdown);
}

#[test]
fn cert_failure_falls_back_to_plaintext_only() {
    let mut b = Bootstrapper::new(8080, 8443);
    assert_eq!(b.advance(BootEvent::CertOutcome { tls_available: false }), None);
    assert_eq!(b.next_action(), BootAction::ConfirmTlsSkip);

    assert_eq!(b.advance(BootEvent::TlsSkipConfirmed), None);
    assert_eq!(b.phase, Phase::TlsSkipped);
    assert_eq!(b.next_action(), BootAction::AttemptPlainBind { port: 8080 });

    assert_eq!(b.advance(BootEvent::PlainBindOutcome { bound: true }), None);
    assert_eq!(b.advance(BootEvent::ServeStarted), None);
    assert!(b.is_serving());
    assert!(!b.tls_bound);
    assert!(b.plain_bound);
}

#[test]
fn tls_bind_failure_is_fatal() {
    let mut b = Bootstrapper::new(8080, 8443);
    assert_eq!(b.advance(BootEvent::CertOutcome { tls_available: true }), None);
    let fault = b.advance(BootEvent::TlsBindOutcome { bound: false });
    assert_eq!(
        fault,
        Some(BootstrapError::BindFailed { protocol: Protocol::Tls, port: 8443 })
    );
    assert_eq!(b.phase, Phase::Stopped);
    assert!(!b.tls_bound);
    assert!(!b.plain_bound);
    assert_eq!(b.next_action(), BootAction::Halt);
}

#[test]
fn plain_bind_failure_is_fatal_with_tls_bound() {
    let mut b = Bootstrapper::new(80, 443);
    assert_eq!(b.advance(BootEvent::CertOutcome { tls_available: true }), None);
    assert_eq!(b.advance(BootEvent::TlsBindOutcome { bound: true }), None);
    let fault = b.advance(BootEvent::PlainBindOutcome { bound: false });
    assert_eq!(
        fault,
        Some(BootstrapError::BindFailed { protocol: Protocol::Plaintext, port: 80 })
    );
    assert_eq!(b.phase, Phase::Stopped);
    assert!(!b.tls_bound);
    assert!(!b.plain_bound);
}

#[test]
fn plain_bind_failure_is_fatal_without_tls() {
    let mut b = Bootstrapper::new(8080, 8443);
    assert_eq!(b.advance(BootEvent::CertOutcome { tls_available: false }), None);
    assert_eq!(b.advance(BootEvent::TlsSkipConfirmed), None);
    let fault = b.advance(BootEvent::PlainBindOutcome { bound: false });
    assert_eq!(
        fault,
        Some(BootstrapError::BindFailed { protocol: Protocol::Plaintext, port: 8080 })
    );
    assert_eq!(b.phase, Phase::Stopped);
    assert!(!b.plain_bound);
}

#[test]
fn shutdown_stops_and_releases_listeners() {
    let mut b = Bootstrapper::new(8080, 8443);
    assert_eq!(b.advance(BootEvent::CertOutcome { tls_available: true }), None);
    assert_eq!(b.advance(BootEvent::TlsBindOutcome { bound: true }), None);
    assert_eq!(b.advance(BootEvent::PlainBindOutcome { bound: true }), None);
    assert_eq!(b.advance(BootEvent::ServeStarted), None);
    assert_eq!(b.advance(BootEvent::ShutdownRequested), None);
    assert_eq!(b.phase, Phase::Stopped);
    assert!(!b.tls_bound);
    assert!(!b.plain_bound);
}
