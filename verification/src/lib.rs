//! Verified core of a text-sentiment analysis service.
//!
//! The library holds the logic that is worth proving: sentence-span
//! trimming, the scoring and aggregation engine, and the gateway
//! decisions (routing, body-size validation, dispatch settlement and
//! error-to-status mapping). Model loading, HTTP plumbing and the
//! classifier calls live outside, handing the library plain values.

pub mod engine;
pub mod gateway;
pub mod segment;
pub mod text;
