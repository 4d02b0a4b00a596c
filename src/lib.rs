//! Session layer of an agentic task loop: how operations reach a backend, how
//! its events reach a consumer, best-effort persistence, and swappable sources
//! of randomness and time.

pub mod entropy;
pub mod protocol;
pub mod session;
pub mod storage;
