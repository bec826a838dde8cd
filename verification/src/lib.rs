//! An ephemeral-credential issuance relay.
//!
//! The relay holds a long-lived secret on the trusted side of a process
//! boundary, exchanges it for a short-lived scope-limited token minted by an
//! upstream issuer, and hands only the short-lived token back to the caller.
//! The relay itself is a pure decision core: it validates a request, frames
//! the exact bytes of the upstream call, and interprets the upstream's
//! answer. The single network round trip is performed by the embedding
//! program, which feeds the outcome back into [`relay::conclude`].

pub mod credential;
pub mod error;
pub mod json;
pub mod laws;
pub mod relay;
pub mod text;
