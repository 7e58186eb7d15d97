//! Verified core of a small relay-control firmware: an edge-latching button
//! debouncer, a relay bank guarded by one lock, a WiFi reconnect supervisor
//! with capped quadratic backoff, and the HTTP toggle/render decision logic.

pub mod debounce;
pub mod http;
pub mod relay;
pub mod render;
pub mod scheduler;
pub mod shared;
pub mod wifi;
