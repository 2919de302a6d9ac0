//! A minimal chat-completion gateway core.
//!
//! The library holds the request-scoped decision logic of a small HTTP
//! gateway: resolving the credential for a request, normalizing role-tagged
//! message turns, and translating an upstream outcome into the fixed
//! `{message, code}` envelope that every response carries.

pub mod chat;
pub mod envelope;
pub mod laws;
pub mod timing;
pub mod upstream;
