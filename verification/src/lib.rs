//! Real-time authorization token service: a signed, context-bound binary
//! credential with deterministic encoding, issuance and validation rules,
//! provider resolution for OAuth introspection, an authorization-context
//! store, and a revocation set with enforcement-time precedence.

pub mod byteorder;
pub mod crypto;
pub mod hexcode;
pub mod token;
pub mod strutil;
pub mod config;
pub mod context;
pub mod revocation;
pub mod events;
pub mod queries;
pub mod exchange;
pub mod enforce;
