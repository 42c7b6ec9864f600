//! A verified core for a token-refresh daemon.
//!
//! The daemon keeps a single authentication token valid on disk: it logs in,
//! persists the returned token, and refreshes it whenever the token is about
//! to expire or its file is removed.  The modules here hold the decision
//! logic of that lifecycle — claim decoding, timer computation, wake-event
//! dispatch, and the refresh cycle — each with a proved contract.  The
//! surrounding process (HTTP transport, filesystem I/O, channels) hands this
//! core plain values and carries out what it decides.

pub mod authd;
pub mod client;
pub mod error;
