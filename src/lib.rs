//! An RTMP ingest relay: accepts inbound publishes, resolves each one's upstream through
//! an authentication provider, and forwards its media to that upstream.
//!
//! `pipe` drives one inbound connection, `relay` the upstream side of one publish,
//! `codec` holds the calls into the RTMP and URL libraries, `services` the platform
//! provider's response handling, and `login` the web-login helper's configuration.
use vstd::prelude::*;

pub mod codec;
pub mod login;
pub mod pipe;
pub mod relay;
pub mod services;

verus! {

} // verus!
