//! A polling engine that keeps the latest heart-rate reading of a web API
//! fresh: visibility gating, a backoff schedule with a rate-limit override,
//! single-flight dispatch, and an access-token cache with refresh.
pub mod schedule;
pub mod text;
pub mod fetch;
pub mod state;
pub mod response;
pub mod laws;
