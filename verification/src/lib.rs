//! Session-based authentication for a single configured account.
//!
//! The crate holds two pieces: the authentication backend, which answers
//! whether a credential pair matches the configured identity and whether a
//! session-bound id still resolves to it, and the session lifecycle, which
//! binds a client's session to an authenticated identity together with an
//! integrity seed derived from the identity's secret, so that a secret
//! change invalidates every outstanding session on its next validation.

pub mod auth;
pub mod session;
