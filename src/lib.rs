//! An HTTP interception stage that rewrites a one-field JSON envelope
//! `{"msg": <string>}` on its way into a handler and on its way back out.
//!
//! The stage decides; the HTTP server around it moves the bytes. Every
//! decision is a function from plain values (a content type, a status, body
//! bytes) to plain values, with a contract over the byte-level and text-level
//! models of the envelope.
pub mod envelope;
pub mod json;
pub mod laws;
pub mod middleware;
pub mod text;
