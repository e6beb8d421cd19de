//! Stateless relay of inbound SMS notifications to a private chat endpoint.
//!
//! The interesting part is the capability-token scheme: a tenant's private
//! destination URL is encrypted under a process-wide secret into an opaque,
//! reversible token, so the relay holds no database yet routes per tenant.
//! `codec` holds the token codec; `relay` holds the dispatcher that resolves
//! a destination (from a token or from static configuration) and builds the
//! outbound message, leaving the actual transport send to the caller.

pub mod codec;
pub mod relay;

