//! The capture-routing core of a reverse-proxy plugin: the start-up
//! handshake with the host (capability introspection and configuration
//! receipt), the path rewriter shared by both capture pipelines, the
//! sniff-decision mapping of the dynamic pipeline, the static dispatch
//! table, the embedded-UI file server, and the termination signal. The
//! embedding application supplies the transport around these parts.

use vstd::prelude::*;

pub mod dynamic_router;
pub mod embed_webserver;
pub mod handshake;
pub mod json;
pub mod rewrite;
pub mod static_router;
pub mod strutil;
pub mod termination;
pub mod types;

verus! {

/// Host-defined control status codes carried on plugin responses.
///
/// The reverse proxy host interprets these codes on responses from the
/// plugin: `Captured` tells the host the plugin fully handled the traffic,
/// `UnHandled` tells it to continue its own proxying, and `Error` tells it
/// to proxy normally but log a plugin-side failure.
#[derive(Debug, Clone, Copy, PartialEq, Eq, Structural)]
pub enum ControlStatusCode {
    /// Traffic captured by the plugin; the host must not process it further.
    Captured,
    /// Traffic not handled by the plugin; the host should process it.
    UnHandled,
    /// A plugin-side error; the host should process the traffic and log it.
    Error,
}

impl ControlStatusCode {
    /// The numeric status code this control value stands for on the wire.
    pub fn code(&self) -> (c: u16)
        ensures
            c == self.spec_code(),
    {
        match self {
            ControlStatusCode::Captured => 280,
            ControlStatusCode::UnHandled => 284,
            ControlStatusCode::Error => 580,
        }
    }

    /// The wire status code, as a specification-level value.
    pub open spec fn spec_code(&self) -> u16 {
        match self {
            ControlStatusCode::Captured => 280,
            ControlStatusCode::UnHandled => 284,
            ControlStatusCode::Error => 580,
        }
    }
}

} // verus!

