//! A mediator between a host application and an embedded web-rendering
//! engine.  It owns a single browsing context's identity, translates
//! engine-originated notifications into a compact state delta for the host,
//! and buffers host-originated commands until the host forwards them to the
//! engine.

pub mod browser;
pub mod laws;
