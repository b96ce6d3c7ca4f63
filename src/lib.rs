//! Payment status derivation and event classification.
//!
//! The library maps connector-facing attempt state to merchant-facing intent
//! state, narrows attempt state to capture state, classifies statuses into
//! notification events, disambiguates inbound webhook event tags per target
//! domain, and validates the trust-sensitive request headers.
pub mod conversion;
pub mod enums;
pub mod errors;
pub mod events;
pub mod headers;
pub mod intent;
pub mod laws;
pub mod webhooks;
