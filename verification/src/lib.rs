//! Decision logic for an HTTP edge server: a redirect guard, an ordered
//! static-file / reverse-proxy fallback chain, and a fire-and-forget
//! analytics beacon. The surrounding process (socket handling, file reads,
//! outbound HTTP) lives outside this crate and consults these functions for
//! every decision.

pub mod beacon;
pub mod config;
pub mod encode;
pub mod http;
pub mod pipeline;
pub mod redirect;
pub mod strutil;
