//! A process-scoped tracing span manager.
//!
//! Application code asks for correlated trace spans keyed by content hashes;
//! span records are handed to a background sender that forwards them to a
//! remote collector over an unreliable transport. Tracing is best-effort:
//! when the manager is not launched, every span request yields an inactive
//! handle and the traced program behaves exactly as before.

pub mod config;
pub mod errors;
pub mod hashing;
pub mod manager;
pub mod mick;
pub mod span;

pub use config::{AgentAddr, JaegerConfig, JaegerConfigBuilder};
pub use errors::JaegerError;
pub use hashing::{derive_trace_id, CandidateHash, ContentHash, PoV};
pub use manager::{candidate_hash_span, hash_span, next_probe_port, pov_span};
pub use manager::{DispatchHandle, Jaeger, LifecycleStage, BASE_PORT};
pub use span::JaegerSpan;
