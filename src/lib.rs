//! A signaling relay: clients connected under a session id exchange addressed
//! text frames with one another through a shared registry of outbound sinks,
//! after authenticating with a signed, expiring credential.

pub mod api_response;
pub mod auth;
pub mod pump;
pub mod registry;
pub mod router;
pub mod text;
pub mod token;
pub mod user;
