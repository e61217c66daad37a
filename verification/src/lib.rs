//! DNS-driven HTTP relay for ACME HTTP-01 challenges.
//!
//! The library holds the two engines of the relay: the resolver, which
//! discovers the target of a custom domain purely from its published DNS
//! records, and the forwarder, which decides how an inbound request is
//! answered (redirect, streaming proxy, or an error), together with the
//! header-hygiene rules that a proxy hop must apply.  DNS queries and the
//! HTTP transport themselves live outside the library; the library takes
//! their outcomes as values and makes every decision from those.

pub mod dns;
pub mod metrics;
pub mod relay;
pub mod text;
