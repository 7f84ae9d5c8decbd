//! Transaction-verification and block-verification-aggregation core of a
//! blockchain node's authentication tier.
//!
//! The library holds the decision logic of the pipeline: a dedup cache of
//! verification responses, a correlation table for in-flight single-transaction
//! requests, a monotonic chain-height watermark, the per-block verification
//! status machine, the pre-verification gate, the per-request verification
//! rule, the inbound-message dispatcher and the result aggregator. Transport,
//! cryptography and channel plumbing live outside; the library takes their
//! answers as plain values and states exactly what it does with them.

pub mod aggregate;
pub mod bytemap;
pub mod dispatch;
pub mod gate;
pub mod laws;
pub mod status;
pub mod types;
pub mod watermark;
pub mod workers;
