//! A supervisor for a pair of locally launched services: a backend and a
//! frontend. The library holds the decision logic — how launch commands are
//! chosen and tried in order, how the two liveness probes are combined into a
//! readiness status, how the polling gate advances and terminates, and how the
//! running process handles are registered and drained on shutdown. All I/O
//! (spawning, HTTP probing, the display shell) lives outside and feeds this
//! logic plain values.

pub mod gate;
pub mod launcher;
pub mod registry;
pub mod resolver;
pub mod status;
