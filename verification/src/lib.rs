//! A small web-serving core: certificate loading and a dual-listener
//! bootstrap policy.
//!
//! The crate verifies the two pieces of the service that carry real
//! decisions: turning PEM-encoded certificate and key material into a TLS
//! server configuration (`loader`), and the startup policy that brings up a
//! TLS listener only when that configuration exists while always insisting
//! on a plaintext listener (`bootstrap`). The `routes` module fixes the
//! responses of the shared router. Process plumbing (sockets, logging,
//! files) lives outside the crate and drives these models.

pub mod bootstrap;
pub mod loader;
pub mod routes;
pub mod tls;
